//! The feedback side: classifies what the blocking receive produced and
//! applies actuator commands to the shared state. A received actuator
//! frame is normalized and applied under the caller's write section; any
//! other recognized frame is accepted and discarded; a timeout means
//! retry after a brief pause; every other receive error terminates the
//! loop.

use vstd::prelude::*;
use crate::ConnectionError;
use crate::spec_is_retryable;
use crate::actuator::{normalize_actuator_outputs, spec_normalize_channel, RAW_MAGNITUDE_BOUND};
use crate::frame::FrameHeader;
use crate::messages::{MsgKind, spec_kind_of_hash, kind_of_hash};
use crate::state::{SimState, ACTUATOR_CHANNEL_COUNT};

verus! {

/// What the feedback loop does with one receive outcome.
#[derive(Clone, Copy, PartialEq, Eq, Structural, Debug)]
pub enum FeedbackAction {
    /// The frame carries an actuator command: decode its payload,
    /// normalize it, and apply it to the shared state.
    ApplyActuatorCommand,
    /// The frame is valid but not relevant here: accept and discard it;
    /// no state change, not an error.
    DiscardFrame,
    /// No frame arrived within the configured window: sleep briefly and
    /// receive again.
    RetryAfterPause,
    /// The transport failed terminally: the loop ends.
    Terminate,
}

/// The classification policy over one receive outcome.
pub open spec fn spec_classify_inbound(r: Result<FrameHeader, ConnectionError>) -> FeedbackAction {
    match r {
        Ok(h) => {
            if spec_kind_of_hash(h.hash) == Some(MsgKind::ActuatorOutputs) {
                FeedbackAction::ApplyActuatorCommand
            } else {
                FeedbackAction::DiscardFrame
            }
        },
        Err(e) => {
            if spec_is_retryable(e) {
                FeedbackAction::RetryAfterPause
            } else {
                FeedbackAction::Terminate
            }
        },
    }
}

/// Classifies one receive outcome: apply actuator frames, discard other
/// frames, retry after a timeout, terminate on any other error.
pub fn classify_inbound(r: &Result<FrameHeader, ConnectionError>) -> (a: FeedbackAction)
    ensures
        a == spec_classify_inbound(*r),
{
    match r {
        Ok(h) => {
            match kind_of_hash(h.hash) {
                Some(MsgKind::ActuatorOutputs) => FeedbackAction::ApplyActuatorCommand,
                _ => FeedbackAction::DiscardFrame,
            }
        },
        Err(e) => {
            if crate::is_retryable(e) {
                FeedbackAction::RetryAfterPause
            } else {
                FeedbackAction::Terminate
            }
        },
    }
}

/// Applies one actuator command: normalizes the raw vector and stores
/// it, with the frame's timestamp, in the shared state. Covers only the
/// state mutation; the receive that produced the command happens outside
/// any lock.
pub fn handle_actuator_outputs(
    state: &mut SimState,
    timestamp: u64,
    raw: &Vec<Option<i64>>,
    nrotors: usize,
)
    requires
        raw@.len() == ACTUATOR_CHANNEL_COUNT,
        forall|i: int|
            0 <= i < raw@.len() && (#[trigger] raw@[i]) is Some ==> -RAW_MAGNITUDE_BOUND
                <= raw@[i]->Some_0 <= RAW_MAGNITUDE_BOUND,
    ensures
        final(state).actuator_controls@.len() == ACTUATOR_CHANNEL_COUNT,
        forall|i: int|
            0 <= i < ACTUATOR_CHANNEL_COUNT ==> #[trigger] final(state).actuator_controls@[i]
                == spec_normalize_channel(raw@[i], i < nrotors),
        final(state).last_actuator_timestamp == timestamp,
        final(state).simulated_usecs == old(state).simulated_usecs,
        final(state).abstime_offset == old(state).abstime_offset,
{
    let controls = normalize_actuator_outputs(raw, nrotors);
    state.update(timestamp, controls);
}

} // verus!
