//! Validated views of NGINX buffers, modelled by their addresses and flags.
//!
//! A buffer is `start..end` storage with the readable window `pos..last`; the
//! writable window of an output buffer is `last..end`. Address `0` is null.

use vstd::prelude::*;

verus! {

/// The codec operation requested for one piece of input.
#[derive(Clone, Copy, Debug, PartialEq, Eq, Structural)]
pub enum Operation {
    Continue,
    Flush,
    Finish,
}

/// Where an emitted output buffer ends a unit of the stream.
#[derive(Clone, Copy, Debug, PartialEq, Eq, Structural)]
pub enum OutputBoundary {
    Plain,
    Flush,
    Finish,
}

/// Why an output buffer could not be provided or filled.
#[derive(Clone, Copy, Debug, PartialEq, Eq, Structural)]
pub enum OutputFailure {
    Allocation,
    Exhausted,
    InvalidFfiState,
}

/// The addresses and flags of one NGINX buffer.
#[derive(Clone, Copy, Debug, PartialEq, Eq, Structural)]
pub struct BufState {
    pub start: usize,
    pub pos: usize,
    pub last: usize,
    pub end: usize,
    pub flush: bool,
    pub sync: bool,
    pub last_buf: bool,
    pub last_in_chain: bool,
    pub temporary: bool,
}

pub open spec fn operation_of(buf: BufState) -> Operation {
    if buf.last_buf {
        Operation::Finish
    } else if buf.flush || buf.last_in_chain {
        Operation::Flush
    } else {
        Operation::Continue
    }
}

/// Chooses the codec operation for an input buffer from its flags.
pub fn operation_for(buf: &BufState) -> (r: Operation)
    ensures
        r == operation_of(*buf),
        buf.last_buf ==> r == Operation::Finish,
        !buf.last_buf && (buf.flush || buf.last_in_chain) ==> r == Operation::Flush,
        !buf.last_buf && !buf.flush && !buf.last_in_chain ==> r == Operation::Continue,
{
    if buf.last_buf {
        Operation::Finish
    } else if buf.flush || buf.last_in_chain {
        Operation::Flush
    } else {
        Operation::Continue
    }
}

/// The last buffer of a response finishes the stream, whatever else it is
/// marked with (NGINX marks the final buffer `last_buf` and `last_in_chain`
/// together); a flush or chain end short of that flushes; any other buffer
/// just continues the stream.
pub proof fn lemma_operation_by_flags(buf: BufState)
    ensures
        buf.last_buf ==> operation_of(buf) == Operation::Finish,
        !buf.last_buf && (buf.flush || buf.last_in_chain) ==> operation_of(buf) == Operation::Flush,
        !buf.last_buf && !buf.flush && !buf.last_in_chain ==> operation_of(buf) == Operation::Continue,
        operation_of(buf) == Operation::Finish <==> buf.last_buf,
{
}

impl BufState {
    /// Readies a (possibly recycled) buffer for fresh output: an empty window
    /// at the start of its storage, no boundary flags, and temporary storage.
    pub fn prepare_output(&mut self)
        ensures
            *final(self) == (BufState {
                pos: old(self).start,
                last: old(self).start,
                flush: false,
                sync: false,
                last_buf: false,
                last_in_chain: false,
                temporary: true,
                ..*old(self)
            }),
    {
        self.pos = self.start;
        self.last = self.start;
        self.flush = false;
        self.sync = false;
        self.last_buf = false;
        self.last_in_chain = false;
        self.temporary = true;
    }
}

/// A validated readable view of one input buffer.
pub struct InputBuffer {
    raw: BufState,
    len: usize,
    operation: Operation,
}

impl InputBuffer {
    /// The view covers exactly the readable window of its buffer.
    #[verifier::type_invariant]
    closed spec fn inv(&self) -> bool {
        self.raw.pos <= self.raw.last && self.len == self.raw.last - self.raw.pos
    }

    pub closed spec fn raw(&self) -> BufState {
        self.raw
    }

    pub closed spec fn len_spec(&self) -> usize {
        self.len
    }

    pub closed spec fn operation_spec(&self) -> Operation {
        self.operation
    }

    /// Validates `pos..last`: empty when equal, else ordered and non-null.
    pub fn new(raw: BufState) -> (r: Result<InputBuffer, ()>)
        ensures
            match r {
                Ok(view) => view.raw() == raw && view.operation_spec() == operation_of(raw)
                    && view.len_spec() == raw.last - raw.pos && raw.pos <= raw.last && (raw.pos
                    == raw.last || raw.pos != 0),
                Err(()) => raw.pos != raw.last && (raw.last < raw.pos || raw.pos == 0),
            },
    {
        let operation = operation_for(&raw);
        let len = if raw.pos == raw.last {
            0
        } else {
            if raw.last < raw.pos {
                return Err(());
            }
            if raw.pos == 0 {
                return Err(());
            }
            raw.last - raw.pos
        };
        Ok(InputBuffer { raw, len, operation })
    }

    pub fn operation(&self) -> (r: Operation)
        ensures
            r == self.operation_spec(),
    {
        self.operation
    }

    /// The number of readable bytes.
    pub fn len(&self) -> (r: usize)
        ensures
            r == self.len_spec(),
    {
        self.len
    }

    /// Advances past the first `bytes` readable bytes; returns whether the
    /// whole window was consumed, with the updated buffer. More than the
    /// window holds is refused and leaves the buffer as it was.
    pub fn consume(self, bytes: usize) -> (r: (Result<bool, ()>, BufState))
        ensures
            bytes > self.len_spec() ==> r.0 is Err && r.1 == self.raw(),
            bytes <= self.len_spec() ==> r.1 == (BufState { pos: (self.raw().pos + bytes) as usize, ..self.raw() })
                && r.0 == Ok::<bool, ()>(bytes == self.len_spec()),
    {
        proof {
            use_type_invariant(&self);
        }
        if bytes > self.len {
            return (Err(()), self.raw);
        }
        let mut raw = self.raw;
        raw.pos = raw.pos + bytes;
        (Ok(raw.pos == raw.last), raw)
    }
}

/// A validated writable view of one output buffer.
pub struct OutputBuffer {
    raw: BufState,
    capacity: usize,
}

impl OutputBuffer {
    /// The view covers exactly the writable window of its buffer.
    #[verifier::type_invariant]
    closed spec fn inv(&self) -> bool {
        self.raw.last <= self.raw.end && self.capacity == self.raw.end - self.raw.last
    }

    pub closed spec fn raw(&self) -> BufState {
        self.raw
    }

    pub closed spec fn capacity_spec(&self) -> usize {
        self.capacity
    }

    /// Validates `last..end`: empty when equal, else ordered and non-null.
    pub fn new(raw: BufState) -> (r: Result<OutputBuffer, OutputFailure>)
        ensures
            match r {
                Ok(view) => view.raw() == raw && raw.last <= raw.end && view.capacity_spec() == raw.end
                    - raw.last && (raw.last == raw.end || raw.last != 0),
                Err(e) => e == OutputFailure::InvalidFfiState && raw.last != raw.end && (raw.end
                    < raw.last || raw.last == 0),
            },
    {
        let capacity = if raw.last == raw.end {
            0
        } else {
            if raw.end < raw.last {
                return Err(OutputFailure::InvalidFfiState);
            }
            if raw.last == 0 {
                return Err(OutputFailure::InvalidFfiState);
            }
            raw.end - raw.last
        };
        Ok(OutputBuffer { raw, capacity })
    }

    /// The number of writable bytes.
    pub fn capacity(&self) -> (r: usize)
        ensures
            r == self.capacity_spec(),
    {
        self.capacity
    }

    /// Records `produced` written bytes and sets only the flag of `boundary`,
    /// returning the buffer state. More than the capacity is refused and
    /// leaves the buffer as it was.
    pub fn commit(self, produced: usize, boundary: OutputBoundary) -> (r: (Result<(), OutputFailure>, BufState))
        ensures
            produced > self.capacity_spec() ==> r.0 == Err::<(), OutputFailure>(
                OutputFailure::InvalidFfiState,
            ) && r.1 == self.raw(),
            produced <= self.capacity_spec() ==> r.0 is Ok && r.1 == (BufState {
                last: (self.raw().last + produced) as usize,
                flush: self.raw().flush || boundary == OutputBoundary::Flush,
                last_buf: self.raw().last_buf || boundary == OutputBoundary::Finish,
                ..self.raw()
            }),
    {
        proof {
            use_type_invariant(&self);
        }
        if produced > self.capacity {
            return (Err(OutputFailure::InvalidFfiState), self.raw);
        }
        let mut raw = self.raw;
        raw.last = raw.last + produced;
        match boundary {
            OutputBoundary::Plain => {},
            OutputBoundary::Flush => raw.flush = true,
            OutputBoundary::Finish => raw.last_buf = true,
        }
        (Ok(()), raw)
    }
}

/// The per-request hard limit on output buffers.
pub struct OutputBudget {
    allocated: usize,
    count: usize,
}

impl OutputBudget {
    /// At most `count` buffers are ever allocated.
    #[verifier::type_invariant]
    closed spec fn inv(&self) -> bool {
        self.allocated <= self.count
    }

    pub closed spec fn allocated_spec(&self) -> usize {
        self.allocated
    }

    pub closed spec fn count_spec(&self) -> usize {
        self.count
    }

    pub fn new(count: usize) -> (r: OutputBudget)
        ensures
            r.allocated_spec() == 0,
            r.count_spec() == count,
    {
        OutputBudget { allocated: 0, count }
    }

    /// The buffers allocated so far, never more than the limit.
    pub fn allocated(&self) -> (r: usize)
        ensures
            r == self.allocated_spec(),
            r <= self.count_spec(),
    {
        proof {
            use_type_invariant(self);
        }
        self.allocated
    }

    /// Whether an output buffer may be taken: a free one can always be reused;
    /// a new one needs the limit not to be reached. An injected allocation
    /// fault fails first.
    pub fn check(&self, fault_injected: bool, free_empty: bool) -> (r: Result<(), OutputFailure>)
        ensures
            fault_injected ==> r == Err::<(), OutputFailure>(OutputFailure::Allocation),
            !fault_injected ==> (r == if free_empty && self.allocated_spec() >= self.count_spec() {
                Err::<(), OutputFailure>(OutputFailure::Exhausted)
            } else {
                Ok(())
            }),
    {
        if fault_injected {
            return Err(OutputFailure::Allocation);
        }
        if free_empty && self.allocated >= self.count {
            return Err(OutputFailure::Exhausted);
        }
        Ok(())
    }

    /// Counts newly allocated buffer storage; refused at the limit.
    pub fn record_allocation(&mut self) -> (r: Result<(), OutputFailure>)
        ensures
            final(self).count_spec() == old(self).count_spec(),
            old(self).allocated_spec() < old(self).count_spec() ==> r is Ok
                && final(self).allocated_spec() == old(self).allocated_spec() + 1,
            old(self).allocated_spec() >= old(self).count_spec() ==> r == Err::<(), OutputFailure>(
                OutputFailure::Exhausted,
            ) && final(self).allocated_spec() == old(self).allocated_spec(),
    {
        proof {
            use_type_invariant(&*self);
        }
        if self.allocated >= self.count {
            return Err(OutputFailure::Exhausted);
        }
        self.allocated = self.allocated + 1;
        Ok(())
    }
}

/// `pending` with each of `incoming` appended unless already present (also
/// among those just appended): the same buffer is never queued twice.
pub open spec fn append_unique(pending: Seq<usize>, incoming: Seq<usize>) -> Seq<usize>
    decreases incoming.len(),
{
    if incoming.len() == 0 {
        pending
    } else {
        let next = if pending.contains(incoming[0]) {
            pending
        } else {
            pending.push(incoming[0])
        };
        append_unique(next, incoming.drop_first())
    }
}

pub(crate) fn contains_usize(values: &Vec<usize>, value: usize) -> (r: bool)
    ensures
        r == values@.contains(value),
{
    let mut j: usize = 0;
    while j < values.len()
        invariant
            j <= values@.len(),
            forall|k: int| 0 <= k < j ==> values@[k] != value,
        decreases values@.len() - j,
    {
        if values[j] == value {
            assert(values@[j as int] == value);
            return true;
        }
        j = j + 1;
    }
    false
}

/// Appends the buffers of an incoming chain to the pending input queue,
/// skipping any buffer already queued.
pub fn append_input(pending: &mut Vec<usize>, incoming: &Vec<usize>)
    ensures
        final(pending)@ == append_unique(old(pending)@, incoming@),
{
    let mut i: usize = 0;
    assert(incoming@.skip(0) =~= incoming@);
    while i < incoming.len()
        invariant
            i <= incoming@.len(),
            append_unique(pending@, incoming@.skip(i as int)) == append_unique(
                old(pending)@,
                incoming@,
            ),
        decreases incoming@.len() - i,
    {
        let buf = incoming[i];
        let duplicate = contains_usize(pending, buf);
        proof {
            let rest = incoming@.skip(i as int);
            assert(rest[0] == buf);
            assert(rest.drop_first() =~= incoming@.skip(i + 1));
        }
        if !duplicate {
            pending.push(buf);
        }
        i = i + 1;
    }
    assert(incoming@.skip(incoming@.len() as int) =~= Seq::<usize>::empty());
}

/// Appending keeps the queued buffers in place and in order, queues every
/// incoming buffer, and never introduces a repeated buffer.
pub proof fn lemma_append_unique(pending: Seq<usize>, incoming: Seq<usize>)
    ensures
        append_unique(pending, incoming).len() >= pending.len(),
        append_unique(pending, incoming).take(pending.len() as int) == pending,
        forall|k: int| 0 <= k < incoming.len() ==> append_unique(pending, incoming).contains(
            #[trigger] incoming[k],
        ),
        pending.no_duplicates() ==> append_unique(pending, incoming).no_duplicates(),
    decreases incoming.len(),
{
    if incoming.len() > 0 {
        let next = if pending.contains(incoming[0]) {
            pending
        } else {
            pending.push(incoming[0])
        };
        lemma_append_unique(next, incoming.drop_first());
        let out = append_unique(pending, incoming);
        assert(out == append_unique(next, incoming.drop_first()));
        assert(out.take(next.len() as int) == next);
        assert(out.take(pending.len() as int) =~= next.take(pending.len() as int)) by {
            assert(out.take(pending.len() as int) =~= out.take(next.len() as int).take(
                pending.len() as int,
            ));
        }
        assert(next.take(pending.len() as int) =~= pending);
        assert(next.contains(incoming[0])) by {
            if !pending.contains(incoming[0]) {
                assert(next[pending.len() as int] == incoming[0]);
            }
        }
        assert(out.contains(incoming[0])) by {
            let w = choose|w: int| 0 <= w < next.len() && next[w] == incoming[0];
            assert(out.take(next.len() as int)[w] == incoming[0]);
            assert(out[w] == incoming[0]);
        }
        assert forall|k: int| 0 <= k < incoming.len() implies out.contains(#[trigger] incoming[k]) by {
            if k > 0 {
                assert(incoming.drop_first()[k - 1] == incoming[k]);
            }
        }
        if pending.no_duplicates() {
            assert(next.no_duplicates());
        }
    }
}

} // verus!
