//! What one tick of the processing loop does with the outcome of one read.

use vstd::prelude::*;
use crate::frame::{frame_result, frame_text, PayloadError};

verus! {

/// The outcome of one attempt to read from the byte channel.
#[derive(Debug, Clone, PartialEq, Eq)]
pub enum ReadOutcome {
    /// The read timed out with nothing read.
    TimedOut,
    /// The channel reported an error other than a timeout.
    Failed,
    /// The read returned these bytes.
    Received(Vec<u8>),
}

/// What the loop does for one tick.
#[derive(Debug, Clone, PartialEq, Eq)]
pub enum TickAction {
    /// Nothing arrived: nothing is published and the filter state is kept.
    Idle,
    /// The channel failed: the error is reported and the loop reads again.
    ReportFailure,
    /// A frame arrived without a usable payload: it is reported and skipped.
    ReportMalformed(PayloadError),
    /// The text of a sample arrived: the filter takes it in and both the
    /// filtered value and its score are published.
    Apply(String),
}

/// Whether the action hands anything to the publisher.
pub open spec fn publishes(a: TickAction) -> bool {
    a is Apply
}

/// Whether the action changes the filter state.
pub open spec fn updates_filter(a: TickAction) -> bool {
    a is Apply
}

/// Whether `a` is the action for a tick whose read had this outcome.
pub open spec fn planned(outcome: ReadOutcome, a: TickAction) -> bool {
    match outcome {
        ReadOutcome::TimedOut => a == TickAction::Idle,
        ReadOutcome::Failed => a == TickAction::ReportFailure,
        ReadOutcome::Received(bytes) => if bytes@.len() == 0 {
            a == TickAction::Idle
        } else {
            match frame_result(bytes@) {
                Ok(text) => a matches TickAction::Apply(s) && s@ == text,
                Err(e) => a == TickAction::ReportMalformed(e),
            }
        },
    }
}

/// Decides the tick for one read outcome. An empty read counts as no data,
/// like a timeout; a frame that does not decode is skipped, not fatal.
pub fn plan_tick(outcome: &ReadOutcome) -> (r: TickAction)
    ensures
        planned(*outcome, r),
{
    match outcome {
        ReadOutcome::TimedOut => TickAction::Idle,
        ReadOutcome::Failed => TickAction::ReportFailure,
        ReadOutcome::Received(bytes) => {
            if bytes.len() == 0 {
                TickAction::Idle
            } else {
                match frame_text(bytes.as_slice()) {
                    Ok(s) => TickAction::Apply(s),
                    Err(e) => TickAction::ReportMalformed(e),
                }
            }
        },
    }
}

/// A tick whose read timed out publishes nothing and leaves the filter state
/// as it was.
pub proof fn timeout_tick_is_quiet(a: TickAction)
    requires
        planned(ReadOutcome::TimedOut, a),
    ensures
        !publishes(a),
        !updates_filter(a),
{
}

} // verus!
