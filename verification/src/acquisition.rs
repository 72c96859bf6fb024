//! The acquisition loop's decision step.
//!
//! The loop alternates between a timed read from the resolved endpoint and
//! decoding whatever the read returned. The read itself is blocking I/O and
//! stays with the caller; the decision — decode and continue, silently
//! retry, or stop for good — lives here, together with the decode itself.

use vstd::prelude::*;
use crate::report::{parse_report, report_in_bounds, spec_parse};
use crate::state::{spec_apply, DaemonState};

verus! {

/// Outcome of one timed read from the endpoint, as the caller saw it.
#[derive(Clone, Copy, Debug, PartialEq, Eq, Structural)]
pub enum ReadOutcome {
    /// The read returned this many bytes (possibly zero) into the buffer.
    Data(usize),
    /// The timeout expired with nothing to report: expected in steady state.
    Timeout,
    /// Any other read failure, the unsupported-transfer failure included.
    Failed,
}

/// One step of the acquisition loop: given the outcome of a read and the
/// buffer it filled, commit the decoded report (if any) into the record and
/// say whether the loop goes on.
///
/// A timeout never touches the record and never stops the loop; a
/// non-timeout failure stops this loop only, leaving the record frozen at
/// its last values; returned data is decoded and committed before the next
/// read is issued.
pub fn handle_read(state: &mut DaemonState, outcome: ReadOutcome, buf: &Vec<u8>) -> (cont: bool)
    requires
        outcome matches ReadOutcome::Data(n) ==> n <= buf.len() && (n > 0
            ==> report_in_bounds(buf@.subrange(0, n as int))),
    ensures
        match outcome {
            ReadOutcome::Data(n) => cont && if n > 0 {
                *final(state) == spec_apply(*old(state), spec_parse(buf@.subrange(0, n as int)))
            } else {
                *final(state) == *old(state)
            },
            ReadOutcome::Timeout => cont && *final(state) == *old(state),
            ReadOutcome::Failed => !cont && *final(state) == *old(state),
        },
{
    match outcome {
        ReadOutcome::Data(n) => {
            if n > 0 {
                let r = parse_report(buf, n);
                state.apply_report(r);
            }
            true
        },
        ReadOutcome::Timeout => true,
        ReadOutcome::Failed => false,
    }
}

} // verus!
