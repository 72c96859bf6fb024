//! Decoding of raw telemetry reports.
//!
//! A report is the prefix `buf[..n]` of a fixed-size buffer filled by one
//! read from the device's inbound endpoint. Byte 0 is a tag that says which
//! telemetry field the remaining bytes encode; multi-byte quantities are
//! two-byte little-endian unsigned integers.

use vstd::prelude::*;

verus! {

/// One decoded report: one case per recognized tag, plus a fallback for
/// unrecognized tags, so that the "unknown tag is a no-op" rule is explicit.
#[derive(Clone, Copy, Debug, PartialEq, Eq, Structural)]
pub enum Report {
    /// Tag 8: battery capacity percentage, from byte 1.
    BatteryCapacity(u8),
    /// Tag 25: output wattage, from bytes 1 (low) and 2 (high).
    OutputWattage(u16),
    /// Tag 29: output apparent power in volt-amperes, from bytes 1 and 2.
    OutputVa(u16),
    /// Tag 11: observed on the device but semantically undocumented; no effect.
    Observed,
    /// Any other tag: unrecognized; no effect on telemetry.
    Unrecognized(u8),
}

/// A report prefix is in bounds when it carries every byte its tag makes the
/// decoder read: byte 1 for a battery report, bytes 1 and 2 for the two-byte
/// power reports.
pub open spec fn report_in_bounds(bytes: Seq<u8>) -> bool {
    &&& bytes.len() >= 1
    &&& (bytes[0] == 8 ==> bytes.len() >= 2)
    &&& ((bytes[0] == 25 || bytes[0] == 29) ==> bytes.len() >= 3)
}

/// What a report prefix decodes to.
pub open spec fn spec_parse(bytes: Seq<u8>) -> Report
    recommends
        report_in_bounds(bytes),
{
    if bytes.len() == 0 {
        Report::Unrecognized(0)
    } else if bytes[0] == 8 && bytes.len() >= 2 {
        Report::BatteryCapacity(bytes[1])
    } else if bytes[0] == 25 && bytes.len() >= 3 {
        Report::OutputWattage((bytes[1] + bytes[2] * 256) as u16)
    } else if bytes[0] == 29 && bytes.len() >= 3 {
        Report::OutputVa((bytes[1] + bytes[2] * 256) as u16)
    } else if bytes[0] == 11 {
        Report::Observed
    } else {
        Report::Unrecognized(bytes[0])
    }
}

/// Decode the first `n` bytes of `buf` into a report.
pub fn parse_report(buf: &Vec<u8>, n: usize) -> (r: Report)
    requires
        1 <= n <= buf.len(),
        report_in_bounds(buf@.subrange(0, n as int)),
    ensures
        r == spec_parse(buf@.subrange(0, n as int)),
{
    let tag = buf[0];
    if tag == 8 {
        Report::BatteryCapacity(buf[1])
    } else if tag == 25 {
        let lo = buf[1] as u16;
        let hi = buf[2] as u16;
        Report::OutputWattage(lo + hi * 256)
    } else if tag == 29 {
        let lo = buf[1] as u16;
        let hi = buf[2] as u16;
        Report::OutputVa(lo + hi * 256)
    } else if tag == 11 {
        Report::Observed
    } else {
        Report::Unrecognized(tag)
    }
}

} // verus!
