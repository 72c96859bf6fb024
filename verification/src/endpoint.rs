//! Endpoint resolution: picking the inbound communication endpoint from a
//! device's active configuration.
//!
//! The caller walks the configuration descriptor once, listing every
//! endpoint of every interface in the order encountered; the selection rule
//! lives here: the last inbound endpoint wins, and a device with no inbound
//! endpoint at all is unusable for monitoring.

use vstd::prelude::*;

verus! {

/// Direction of a USB endpoint, seen from the host.
#[derive(Clone, Copy, Debug, PartialEq, Eq, Structural)]
pub enum EndpointDirection {
    /// Device to host.
    In,
    /// Host to device.
    Out,
}

/// Transfer mechanism of a USB endpoint. Only bulk and interrupt transfers
/// are supported for reading reports.
#[derive(Clone, Copy, Debug, PartialEq, Eq, Structural)]
pub enum TransferKind {
    Control,
    Isochronous,
    Bulk,
    Interrupt,
}

/// One endpoint descriptor, as encountered while walking the configuration.
#[derive(Clone, Copy, Debug, PartialEq, Eq, Structural)]
pub struct EndpointInfo {
    pub address: u8,
    pub direction: EndpointDirection,
    pub transfer: TransferKind,
}

/// The endpoint an acquisition loop reads from: resolved once per device,
/// immutable thereafter.
#[derive(Clone, Copy, Debug, PartialEq, Eq, Structural)]
pub struct EndpointBinding {
    pub address: u8,
    pub transfer: TransferKind,
}

/// The binding the walk leaves behind: the last inbound endpoint in the
/// listing, or nothing when no inbound endpoint exists.
pub open spec fn spec_resolve(endpoints: Seq<EndpointInfo>) -> Option<EndpointBinding>
    decreases endpoints.len(),
{
    if endpoints.len() == 0 {
        None
    } else if endpoints.last().direction == EndpointDirection::In {
        Some(
            EndpointBinding {
                address: endpoints.last().address,
                transfer: endpoints.last().transfer,
            },
        )
    } else {
        spec_resolve(endpoints.drop_last())
    }
}

/// Select the endpoint to read from: the last inbound endpoint listed.
/// Returns nothing exactly when the listing has no inbound endpoint.
pub fn resolve_endpoint(endpoints: &Vec<EndpointInfo>) -> (r: Option<EndpointBinding>)
    ensures
        r == spec_resolve(endpoints@),
        r is None <==> (forall|i: int|
            0 <= i < endpoints@.len() ==> endpoints@[i].direction != EndpointDirection::In),
{
    proof {
        lemma_resolve_none(endpoints@);
    }
    let mut found: Option<EndpointBinding> = None;
    let mut i: usize = 0;
    proof {
        assert(endpoints@.subrange(0, 0) =~= Seq::<EndpointInfo>::empty());
    }
    while i < endpoints.len()
        invariant
            i <= endpoints@.len(),
            found == spec_resolve(endpoints@.subrange(0, i as int)),
        decreases endpoints@.len() - i,
    {
        let e = endpoints[i];
        proof {
            assert(endpoints@.subrange(0, i + 1).drop_last() =~= endpoints@.subrange(0, i as int));
            assert(endpoints@.subrange(0, i + 1).last() == endpoints@[i as int]);
        }
        if e.direction == EndpointDirection::In {
            found = Some(EndpointBinding { address: e.address, transfer: e.transfer });
        }
        i = i + 1;
    }
    proof {
        assert(endpoints@.subrange(0, endpoints@.len() as int) =~= endpoints@);
    }
    found
}

/// The walk comes back empty exactly when no endpoint points inbound.
proof fn lemma_resolve_none(endpoints: Seq<EndpointInfo>)
    ensures
        spec_resolve(endpoints) is None <==> (forall|i: int|
            0 <= i < endpoints.len() ==> endpoints[i].direction != EndpointDirection::In),
    decreases endpoints.len(),
{
    if endpoints.len() > 0 {
        lemma_resolve_none(endpoints.drop_last());
        assert(forall|i: int|
            0 <= i < endpoints.len() - 1 ==> endpoints.drop_last()[i] == endpoints[i]);
    }
}

/// Whether an acquisition loop has a read primitive for this transfer
/// mechanism: only bulk and interrupt reads exist; any other mechanism
/// fails immediately as unsupported.
pub fn transfer_supported(t: TransferKind) -> (r: bool)
    ensures
        r == (t == TransferKind::Bulk || t == TransferKind::Interrupt),
{
    match t {
        TransferKind::Bulk => true,
        TransferKind::Interrupt => true,
        TransferKind::Control => false,
        TransferKind::Isochronous => false,
    }
}

} // verus!
