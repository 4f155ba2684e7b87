use ngx_compress_module::buffer::{
    BufState, InputBuffer, Operation, OutputBoundary, OutputBudget, OutputBuffer, OutputFailure,
    append_input, operation_for,
};

fn zeroed() -> BufState {
    BufState {
        start: 0,
        pos: 0,
        last: 0,
        end: 0,
        flush: false,
        sync: false,
        last_buf: false,
        last_in_chain: false,
        temporary: false,
    }
}

fn raw_buffer(storage: &mut [u8]) -> BufState {
    let mut raw = zeroed();
    raw.start = storage.as_mut_ptr() as usize;
    raw.end = raw.start + storage.len();
    raw.pos = raw.start;
    raw.last = raw.start;
    raw
}

fn commit(raw: &mut BufState, boundary: OutputBoundary) {
    let Ok(output) = OutputBuffer::new(*raw) else {
        panic!("valid test buffer");
    };
    let (result, after) = output.commit(1, boundary);
    assert!(result.is_ok());
    *raw = after;
}

#[test]
fn commit_sets_only_the_current_boundary() {
    let mut storage = [0_u8; 8];
    let mut raw = raw_buffer(&mut storage);

    raw.prepare_output();
    commit(&mut raw, OutputBoundary::Plain);
    assert!(!raw.flush);
    assert!(!raw.sync);
    assert!(!raw.last_buf);
    assert!(!raw.last_in_chain);

    raw.prepare_output();
    commit(&mut raw, OutputBoundary::Flush);
    assert!(raw.flush);
    assert!(!raw.sync);
    assert!(!raw.last_buf);
    assert!(!raw.last_in_chain);

    raw.prepare_output();
    commit(&mut raw, OutputBoundary::Finish);
    assert!(!raw.flush);
    assert!(!raw.sync);
    assert!(raw.last_buf);
    assert!(!raw.last_in_chain);
}

#[test]
fn advances_only_the_consumed_prefix() {
    let mut storage = *b"abcdef";
    let mut raw = zeroed();
    raw.pos = storage.as_mut_ptr() as usize;
    raw.last = raw.pos + storage.len();

    let input = InputBuffer::new(raw).expect("valid input");
    let (consumed, raw) = input.consume(2);
    assert_eq!(consumed, Ok(false));
    assert_eq!(raw.last - raw.pos, 4);
}

#[test]
fn input_views_refuse_invalid_windows_and_overconsumption() {
    let mut raw = zeroed();
    raw.pos = 100;
    raw.last = 90;
    assert!(InputBuffer::new(raw).is_err());
    raw.pos = 0;
    raw.last = 10;
    assert!(InputBuffer::new(raw).is_err());
    raw.pos = 100;
    raw.last = 100;
    let empty = InputBuffer::new(raw).expect("empty input");
    assert_eq!(empty.len(), 0);
    raw.last = 103;
    let input = InputBuffer::new(raw).expect("valid input");
    assert_eq!(input.len(), 3);
    let (result, after) = input.consume(4);
    assert!(result.is_err());
    assert_eq!(after, raw);
    let input = InputBuffer::new(raw).expect("valid input");
    let (result, after) = input.consume(3);
    assert_eq!(result, Ok(true));
    assert_eq!(after.pos, 103);
}

#[test]
fn output_views_refuse_invalid_windows_and_overcommit() {
    let mut raw = zeroed();
    raw.last = 50;
    raw.end = 40;
    assert_eq!(OutputBuffer::new(raw).err(), Some(OutputFailure::InvalidFfiState));
    raw.last = 0;
    raw.end = 8;
    assert_eq!(OutputBuffer::new(raw).err(), Some(OutputFailure::InvalidFfiState));
    raw.start = 1000;
    raw.last = 1000;
    raw.end = 1004;
    let output = OutputBuffer::new(raw).expect("valid output");
    assert_eq!(output.capacity(), 4);
    let (result, after) = output.commit(5, OutputBoundary::Finish);
    assert_eq!(result, Err(OutputFailure::InvalidFfiState));
    assert_eq!(after, raw);
    let output = OutputBuffer::new(raw).expect("valid output");
    let (result, after) = output.commit(4, OutputBoundary::Plain);
    assert_eq!(result, Ok(()));
    assert_eq!(after.last, 1004);
}

#[test]
fn operations_follow_buffer_flags() {
    let mut raw = zeroed();
    assert_eq!(operation_for(&raw), Operation::Continue);
    raw.last_in_chain = true;
    assert_eq!(operation_for(&raw), Operation::Flush);
    raw.last_in_chain = false;
    raw.flush = true;
    assert_eq!(operation_for(&raw), Operation::Flush);
    raw.last_buf = true;
    assert_eq!(operation_for(&raw), Operation::Finish);
}

#[test]
fn output_budget_caps_allocations() {
    let mut budget = OutputBudget::new(2);
    assert_eq!(budget.check(false, true), Ok(()));
    assert_eq!(budget.record_allocation(), Ok(()));
    assert_eq!(budget.record_allocation(), Ok(()));
    assert_eq!(budget.allocated(), 2);
    assert_eq!(budget.check(false, true), Err(OutputFailure::Exhausted));
    assert_eq!(budget.check(false, false), Ok(()));
    assert_eq!(budget.check(true, false), Err(OutputFailure::Allocation));
    assert_eq!(budget.record_allocation(), Err(OutputFailure::Exhausted));
    assert_eq!(budget.allocated(), 2);
}

#[test]
fn pending_input_never_queues_a_buffer_twice() {
    let mut pending = vec![1, 2];
    append_input(&mut pending, &vec![2, 3, 3, 1, 4]);
    assert_eq!(pending, vec![1, 2, 3, 4]);
}

#[test]
fn empty_windows_are_accepted_even_when_null() {
    let raw = zeroed();
    let input = InputBuffer::new(raw).expect("empty null input");
    assert_eq!(input.len(), 0);
    let output = OutputBuffer::new(raw).expect("empty null output");
    assert_eq!(output.capacity(), 0);
    let (result, after) = output.commit(0, OutputBoundary::Plain);
    assert_eq!(result, Ok(()));
    assert_eq!(after, raw);
}
