//! Decisions of the body filter around each streaming-driver call: how much
//! input was consumed, whether an operation must be resumed in a later
//! callback, when the stream is finished, and how failures are reported.
//!
//! The driver itself (codec steps over one input and the output provider) runs
//! between these decisions; every step reports its consumed input and next
//! state, and these functions validate them.

use vstd::prelude::*;

use crate::buffer::{BufState, InputBuffer, Operation, OutputFailure};
use crate::observability::FailureClass;

verus! {

/// Where one driver call stopped.
#[derive(Clone, Copy, Debug, PartialEq, Eq, Structural)]
pub enum DriveState {
    /// The input was taken and the codec wants more.
    InputConsumed,
    /// The per-callback work budget ran out; resume in a later callback.
    BudgetExhausted,
    /// The stream is complete.
    Finished,
}

/// Why one driver call failed.
#[derive(Clone, Copy, Debug, PartialEq, Eq, Structural)]
pub enum DriveError {
    Output(OutputFailure),
    Codec,
    InvalidProgress,
}

/// A driver call that completed, with the input it consumed.
#[derive(Clone, Copy, Debug, PartialEq, Eq, Structural)]
pub struct DriveOutcome {
    pub consumed: usize,
    pub state: DriveState,
}

/// A driver call that failed, with the input it consumed before failing.
#[derive(Clone, Copy, Debug, PartialEq, Eq, Structural)]
pub struct DriveFailure {
    pub consumed: usize,
    pub error: DriveError,
}

/// A body-filter failure that ends the response.
#[derive(Clone, Copy, Debug, PartialEq, Eq, Structural)]
pub enum CompressionFailure {
    OutputAllocation,
    InvalidFfiState,
    InvalidCodecProgress,
    CodecBackend,
}

pub open spec fn failure_result(error: DriveError) -> Result<bool, CompressionFailure> {
    match error {
        DriveError::Output(OutputFailure::Exhausted) => Ok(true),
        DriveError::Codec => Err(CompressionFailure::CodecBackend),
        DriveError::InvalidProgress => Err(CompressionFailure::InvalidCodecProgress),
        DriveError::Output(OutputFailure::Allocation) => Err(CompressionFailure::OutputAllocation),
        DriveError::Output(OutputFailure::InvalidFfiState) => Err(CompressionFailure::InvalidFfiState),
    }
}

/// Maps a driver failure to the body-filter result: running out of output
/// buffers is not a failure but pending work (`Ok(true)`).
pub fn map_failure(error: DriveError) -> (r: Result<bool, CompressionFailure>)
    ensures
        r == failure_result(error),
{
    match error {
        DriveError::Output(OutputFailure::Exhausted) => Ok(true),
        DriveError::Codec => Err(CompressionFailure::CodecBackend),
        DriveError::InvalidProgress => Err(CompressionFailure::InvalidCodecProgress),
        DriveError::Output(OutputFailure::Allocation) => Err(CompressionFailure::OutputAllocation),
        DriveError::Output(OutputFailure::InvalidFfiState) => Err(CompressionFailure::InvalidFfiState),
    }
}

/// The log class of a body-filter failure.
pub fn failure_class(failure: CompressionFailure) -> (r: FailureClass)
    ensures
        r == match failure {
            CompressionFailure::OutputAllocation => FailureClass::OutputAllocation,
            CompressionFailure::InvalidFfiState => FailureClass::InvalidFfiState,
            CompressionFailure::InvalidCodecProgress => FailureClass::InvalidCodecProgress,
            CompressionFailure::CodecBackend => FailureClass::CodecBackend,
        },
{
    match failure {
        CompressionFailure::OutputAllocation => FailureClass::OutputAllocation,
        CompressionFailure::InvalidFfiState => FailureClass::InvalidFfiState,
        CompressionFailure::InvalidCodecProgress => FailureClass::InvalidCodecProgress,
        CompressionFailure::CodecBackend => FailureClass::CodecBackend,
    }
}

/// The streaming state a request keeps between body-filter callbacks.
#[derive(Clone, Copy, Debug, PartialEq, Eq, Structural)]
pub struct StreamState {
    /// An operation whose input was consumed but whose output is unfinished.
    pub pending_operation: Option<Operation>,
    /// The codec has finished the stream.
    pub done: bool,
}

/// What the body filter does after one driver call on the head input buffer.
#[derive(Clone, Copy, Debug)]
pub enum InputStep {
    /// Continue with the next pending input buffer.
    Next,
    /// End this callback with the given result (`Ok(true)`: work remains).
    Return(Result<bool, CompressionFailure>),
}

/// The effect of one driver call on the pending input queue.
#[derive(Clone, Copy, Debug)]
pub struct InputDecision {
    pub step: InputStep,
    /// The head buffer was fully consumed: drop it from the pending queue.
    pub advance: bool,
    /// The stream finished: drop the whole pending queue.
    pub clear_input: bool,
    /// The head buffer after consumption.
    pub raw: BufState,
}

/// Records the result of driving `operation` over the head input buffer.
pub fn after_drive(
    state: &mut StreamState,
    input: InputBuffer,
    operation: Operation,
    outcome: Result<DriveOutcome, DriveFailure>,
) -> (r: InputDecision)
    ensures
        ({
            let consumed = match outcome {
                Ok(o) => o.consumed,
                Err(f) => f.consumed,
            };
            let fully = consumed == input.len_spec();
            if consumed > input.len_spec() {
                // Progress beyond the input is an invalid FFI state; nothing changes.
                &&& r.step == InputStep::Return(Err(CompressionFailure::InvalidFfiState))
                &&& !r.advance && !r.clear_input
                &&& r.raw == input.raw()
                &&& *final(state) == *old(state)
            } else {
                &&& r.raw == (BufState { pos: (input.raw().pos + consumed) as usize, ..input.raw() })
                &&& r.advance == fully
                &&& match outcome {
                    Err(f) => {
                        &&& r.step == InputStep::Return(failure_result(f.error))
                        &&& !r.clear_input
                        &&& final(state).done == old(state).done
                        &&& final(state).pending_operation == if fully && f.error == DriveError::Output(
                            OutputFailure::Exhausted,
                        ) {
                            Some(operation)
                        } else {
                            old(state).pending_operation
                        }
                    },
                    Ok(o) => {
                        &&& final(state).done == (o.state == DriveState::Finished)
                        &&& final(state).pending_operation == if fully && o.state
                            == DriveState::BudgetExhausted {
                            Some(operation)
                        } else {
                            old(state).pending_operation
                        }
                        &&& r.step == if o.state == DriveState::BudgetExhausted {
                            InputStep::Return(Ok(true))
                        } else if !fully {
                            InputStep::Return(Err(CompressionFailure::InvalidCodecProgress))
                        } else if o.state == DriveState::Finished {
                            InputStep::Return(Ok(false))
                        } else {
                            InputStep::Next
                        }
                        &&& r.clear_input == (o.state == DriveState::Finished && fully)
                    },
                }
            }
        }),
{
    match outcome {
        Err(failure) => {
            let (consumed, raw) = input.consume(failure.consumed);
            let fully = match consumed {
                Ok(fully) => fully,
                Err(()) => {
                    return InputDecision {
                        step: InputStep::Return(Err(CompressionFailure::InvalidFfiState)),
                        advance: false,
                        clear_input: false,
                        raw,
                    };
                },
            };
            if fully && failure.error == DriveError::Output(OutputFailure::Exhausted) {
                state.pending_operation = Some(operation);
            }
            InputDecision {
                step: InputStep::Return(map_failure(failure.error)),
                advance: fully,
                clear_input: false,
                raw,
            }
        },
        Ok(outcome) => {
            let (consumed, raw) = input.consume(outcome.consumed);
            let fully = match consumed {
                Ok(fully) => fully,
                Err(()) => {
                    return InputDecision {
                        step: InputStep::Return(Err(CompressionFailure::InvalidFfiState)),
                        advance: false,
                        clear_input: false,
                        raw,
                    };
                },
            };
            if fully && outcome.state == DriveState::BudgetExhausted {
                state.pending_operation = Some(operation);
            }
            state.done = outcome.state == DriveState::Finished;
            if outcome.state == DriveState::BudgetExhausted {
                return InputDecision { step: InputStep::Return(Ok(true)), advance: fully, clear_input: false, raw };
            }
            if !fully {
                return InputDecision {
                    step: InputStep::Return(Err(CompressionFailure::InvalidCodecProgress)),
                    advance: false,
                    clear_input: false,
                    raw,
                };
            }
            if state.done {
                return InputDecision { step: InputStep::Return(Ok(false)), advance: true, clear_input: true, raw };
            }
            InputDecision { step: InputStep::Next, advance: true, clear_input: false, raw }
        },
    }
}

/// What the body filter does after resuming a pending operation.
#[derive(Clone, Copy, Debug)]
pub enum ResumeStep {
    /// The pending operation completed; go on with the pending input.
    Resumed,
    /// End this callback with the given result (`Ok(true)`: work remains).
    Return(Result<bool, CompressionFailure>),
}

/// Records the result of driving the pending operation with no new input.
/// Returns the step and whether the pending input queue must be dropped.
pub fn after_resume(state: &mut StreamState, outcome: Result<DriveOutcome, DriveFailure>) -> (r: (
    ResumeStep,
    bool,
))
    requires
        old(state).pending_operation is Some,
    ensures
        match outcome {
            Err(f) => r == (ResumeStep::Return(failure_result(f.error)), false) && *final(state)
                == *old(state),
            Ok(o) => {
                &&& final(state).done == (o.state == DriveState::Finished)
                &&& if o.state == DriveState::BudgetExhausted {
                    r == (ResumeStep::Return(Ok(true)), false) && final(state).pending_operation
                        == old(state).pending_operation
                } else if o.state == DriveState::Finished {
                    r == (ResumeStep::Return(Ok(false)), true) && final(state).pending_operation is None
                } else {
                    r == (ResumeStep::Resumed, false) && final(state).pending_operation is None
                }
            },
        },
{
    match outcome {
        Ok(outcome) => {
            state.done = outcome.state == DriveState::Finished;
            if outcome.state == DriveState::BudgetExhausted {
                return (ResumeStep::Return(Ok(true)), false);
            }
            state.pending_operation = None;
            if state.done {
                return (ResumeStep::Return(Ok(false)), true);
            }
            (ResumeStep::Resumed, false)
        },
        Err(failure) => (ResumeStep::Return(map_failure(failure.error)), false),
    }
}

/// What the body filter does once this callback's compression succeeded.
#[derive(Clone, Copy, Debug, PartialEq, Eq, Structural)]
pub struct BodyStep {
    /// Emit the `Server-Timing` trailer now.
    pub add_trailer: bool,
    /// Pass the produced output downstream (else return `NGX_OK` directly).
    pub forward: bool,
}

/// Emits the timing trailer once, after the stream finished, and forwards
/// output only when some is produced or still in flight downstream: an empty
/// chain must never reach the next filter.
pub fn body_step(done: bool, server_timing: bool, trailer_sent: &mut bool, out_empty: bool, busy_empty: bool) -> (r:
    BodyStep)
    ensures
        r.add_trailer == (done && server_timing && !*old(trailer_sent)),
        *final(trailer_sent) == (*old(trailer_sent) || r.add_trailer),
        r.forward == !(out_empty && busy_empty),
{
    let add_trailer = done && server_timing && !*trailer_sent;
    if add_trailer {
        *trailer_sent = true;
    }
    BodyStep { add_trailer, forward: !(out_empty && busy_empty) }
}

/// A finished request context no longer takes input: its body passes through.
pub fn accepts_input(state: &StreamState) -> (r: bool)
    ensures
        r == !state.done,
{
    !state.done
}

} // verus!
