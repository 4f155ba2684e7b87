use ngx_compress_module::buffer::{BufState, InputBuffer, Operation, OutputFailure};
use ngx_compress_module::observability::FailureClass;
use ngx_compress_module::stream::{
    CompressionFailure, DriveError, DriveFailure, DriveOutcome, DriveState, InputStep, ResumeStep,
    StreamState, accepts_input, after_drive, after_resume, body_step, failure_class, map_failure,
};

fn input(len: usize, last_buf: bool) -> InputBuffer {
    let raw = BufState {
        start: 4096,
        pos: 4096,
        last: 4096 + len,
        end: 4096 + len,
        flush: false,
        sync: false,
        last_buf,
        last_in_chain: false,
        temporary: false,
    };
    InputBuffer::new(raw).expect("valid input")
}

fn fresh() -> StreamState {
    StreamState {
        pending_operation: None,
        done: false,
    }
}

#[test]
fn failures_map_to_results_and_log_classes() {
    assert_eq!(map_failure(DriveError::Output(OutputFailure::Exhausted)), Ok(true));
    assert_eq!(map_failure(DriveError::Codec), Err(CompressionFailure::CodecBackend));
    assert_eq!(map_failure(DriveError::InvalidProgress), Err(CompressionFailure::InvalidCodecProgress));
    assert_eq!(
        map_failure(DriveError::Output(OutputFailure::Allocation)),
        Err(CompressionFailure::OutputAllocation)
    );
    assert_eq!(
        map_failure(DriveError::Output(OutputFailure::InvalidFfiState)),
        Err(CompressionFailure::InvalidFfiState)
    );
    assert_eq!(failure_class(CompressionFailure::OutputAllocation), FailureClass::OutputAllocation);
    assert_eq!(failure_class(CompressionFailure::InvalidFfiState), FailureClass::InvalidFfiState);
    assert_eq!(failure_class(CompressionFailure::InvalidCodecProgress), FailureClass::InvalidCodecProgress);
    assert_eq!(failure_class(CompressionFailure::CodecBackend), FailureClass::CodecBackend);
}

#[test]
fn fully_consumed_input_advances_and_continues() {
    let mut state = fresh();
    let decision = after_drive(
        &mut state,
        input(10, false),
        Operation::Continue,
        Ok(DriveOutcome { consumed: 10, state: DriveState::InputConsumed }),
    );
    assert!(matches!(decision.step, InputStep::Next));
    assert!(decision.advance);
    assert!(!decision.clear_input);
    assert_eq!(decision.raw.pos, 4106);
    assert_eq!(state, fresh());
}

#[test]
fn budget_exhaustion_keeps_the_operation_pending() {
    let mut state = fresh();
    let decision = after_drive(
        &mut state,
        input(10, false),
        Operation::Flush,
        Ok(DriveOutcome { consumed: 10, state: DriveState::BudgetExhausted }),
    );
    assert!(matches!(decision.step, InputStep::Return(Ok(true))));
    assert!(decision.advance);
    assert_eq!(state.pending_operation, Some(Operation::Flush));

    let mut state = fresh();
    let decision = after_drive(
        &mut state,
        input(10, false),
        Operation::Flush,
        Ok(DriveOutcome { consumed: 4, state: DriveState::BudgetExhausted }),
    );
    assert!(matches!(decision.step, InputStep::Return(Ok(true))));
    assert!(!decision.advance);
    assert_eq!(decision.raw.pos, 4100);
    assert_eq!(state.pending_operation, None);
}

#[test]
fn partial_consumption_without_budget_exhaustion_is_invalid_progress() {
    let mut state = fresh();
    let decision = after_drive(
        &mut state,
        input(10, false),
        Operation::Continue,
        Ok(DriveOutcome { consumed: 3, state: DriveState::InputConsumed }),
    );
    assert!(matches!(decision.step, InputStep::Return(Err(CompressionFailure::InvalidCodecProgress))));
    assert!(!decision.advance);
}

#[test]
fn overconsumption_is_an_invalid_ffi_state() {
    let mut state = fresh();
    let decision = after_drive(
        &mut state,
        input(10, false),
        Operation::Continue,
        Ok(DriveOutcome { consumed: 11, state: DriveState::InputConsumed }),
    );
    assert!(matches!(decision.step, InputStep::Return(Err(CompressionFailure::InvalidFfiState))));
    assert_eq!(decision.raw.pos, 4096);
}

#[test]
fn finishing_clears_the_input_queue() {
    let mut state = fresh();
    let decision = after_drive(
        &mut state,
        input(5, true),
        Operation::Finish,
        Ok(DriveOutcome { consumed: 5, state: DriveState::Finished }),
    );
    assert!(matches!(decision.step, InputStep::Return(Ok(false))));
    assert!(decision.clear_input);
    assert!(state.done);
    assert!(!accepts_input(&state));
}

#[test]
fn exhausted_output_after_full_consumption_is_pending_work() {
    let mut state = fresh();
    let decision = after_drive(
        &mut state,
        input(5, true),
        Operation::Finish,
        Err(DriveFailure { consumed: 5, error: DriveError::Output(OutputFailure::Exhausted) }),
    );
    assert!(matches!(decision.step, InputStep::Return(Ok(true))));
    assert!(decision.advance);
    assert_eq!(state.pending_operation, Some(Operation::Finish));

    let mut state = fresh();
    let decision = after_drive(
        &mut state,
        input(5, false),
        Operation::Continue,
        Err(DriveFailure { consumed: 2, error: DriveError::Codec }),
    );
    assert!(matches!(decision.step, InputStep::Return(Err(CompressionFailure::CodecBackend))));
    assert!(!decision.advance);
    assert_eq!(decision.raw.pos, 4098);
}

#[test]
fn resuming_a_pending_operation() {
    let pending = StreamState {
        pending_operation: Some(Operation::Finish),
        done: false,
    };
    let mut state = pending;
    let (step, clear) = after_resume(&mut state, Ok(DriveOutcome { consumed: 0, state: DriveState::BudgetExhausted }));
    assert!(matches!(step, ResumeStep::Return(Ok(true))));
    assert!(!clear);
    assert_eq!(state, pending);

    let mut state = pending;
    let (step, clear) = after_resume(&mut state, Ok(DriveOutcome { consumed: 0, state: DriveState::Finished }));
    assert!(matches!(step, ResumeStep::Return(Ok(false))));
    assert!(clear);
    assert_eq!(state, StreamState { pending_operation: None, done: true });

    let mut state = pending;
    let (step, clear) = after_resume(&mut state, Ok(DriveOutcome { consumed: 0, state: DriveState::InputConsumed }));
    assert!(matches!(step, ResumeStep::Resumed));
    assert!(!clear);
    assert_eq!(state.pending_operation, None);

    let mut state = pending;
    let (step, _) = after_resume(
        &mut state,
        Err(DriveFailure { consumed: 0, error: DriveError::Output(OutputFailure::Allocation) }),
    );
    assert!(matches!(step, ResumeStep::Return(Err(CompressionFailure::OutputAllocation))));
    assert_eq!(state, pending);
}

#[test]
fn trailer_is_sent_once_and_empty_output_is_not_forwarded() {
    let mut sent = false;
    let step = body_step(true, true, &mut sent, false, true);
    assert!(step.add_trailer);
    assert!(step.forward);
    assert!(sent);
    let step = body_step(true, true, &mut sent, true, true);
    assert!(!step.add_trailer);
    assert!(!step.forward);
    let mut sent = false;
    let step = body_step(false, true, &mut sent, true, false);
    assert!(!step.add_trailer);
    assert!(step.forward);
    assert!(!sent);
}
