//! Worker-local reuse of codec contexts.
//!
//! A finished request returns its codec to the pool instead of dropping it;
//! the next request with the same key takes it out, and a reset clears the
//! previous stream before reuse. A codec whose reset fails is dropped, so a
//! poisoned codec can never return to the pool or reach another request.

use vstd::prelude::*;

use crate::coding::ContentCoding;

verus! {

/// Upper bound on idle codecs retained per worker.
pub const MAX_IDLE: usize = 8;

/// Identifies an interchangeable codec: same coding and same parameters, so a
/// pooled instance is a drop-in for a fresh one after a reset.
#[derive(Clone, Copy, Debug, PartialEq, Eq, Structural)]
pub struct CodecKey {
    pub coding: ContentCoding,
    /// Compression level; zstd allows negative fast levels.
    pub level: i32,
    /// Brotli window bits; `0` for codings without a window parameter.
    pub window: u32,
}

impl CodecKey {
    pub fn new(coding: ContentCoding, level: i32, window: u32) -> (r: CodecKey)
        ensures
            r == (CodecKey { coding, level, window }),
    {
        CodecKey { coding, level, window }
    }
}

/// A streaming codec whose state can be cleared for reuse.
///
/// An implementation may describe its reset through `resets_to` and
/// `fails_with` (by default every outcome is allowed), and `reset` must
/// behave as they say. The pool's contracts speak of the reset through them;
/// for a codec implemented outside this crate nothing checks that its reset
/// keeps to its description.
pub trait Resettable: Sized {
    type Error;

    /// Whether a reset of this codec may leave it as `after`, succeeding or
    /// not as `succeeded` says.
    closed spec fn resets_to(&self, after: Self, succeeded: bool) -> bool {
        true
    }

    /// Whether a reset of this codec may fail with `error`.
    closed spec fn fails_with(&self, error: Self::Error) -> bool {
        true
    }

    /// Clears the previous stream's state.
    fn reset(&mut self) -> (r: Result<(), Self::Error>)
        ensures
            old(self).resets_to(*final(self), r is Ok),
            r matches Err(e) ==> old(self).fails_with(e),
    ;
}

/// What taking `codec` out of the pool gives: the codec after a successful
/// reset, or the error of its failed reset (the codec itself is dropped).
pub open spec fn reset_gave<C: Resettable>(codec: C, r: Result<Option<C>, C::Error>) -> bool {
    match r {
        Ok(Some(after)) => codec.resets_to(after, true),
        Err(e) => codec.fails_with(e) && exists|after: C| #[trigger] codec.resets_to(after, false),
        Ok(None) => false,
    }
}

/// One idle codec and the key it was built for.
pub struct Entry<C> {
    pub key: CodecKey,
    pub codec: C,
}

/// A bounded free list of idle codecs.
pub struct CodecPool<C> {
    entries: Vec<Entry<C>>,
}

/// The index of the first entry with `key`, if any.
pub open spec fn first_with_key<C>(entries: Seq<Entry<C>>, key: CodecKey) -> Option<int> {
    if exists|i: int|
        0 <= i < entries.len() && (#[trigger] entries[i]).key == key && forall|j: int|
            0 <= j < i ==> (#[trigger] entries[j]).key != key {
        Some(
            choose|i: int|
                0 <= i < entries.len() && (#[trigger] entries[i]).key == key && forall|j: int|
                    0 <= j < i ==> (#[trigger] entries[j]).key != key,
        )
    } else {
        None
    }
}

/// `entries` with the entry at `i` replaced by the last one, which is then
/// dropped (the order `Vec::swap_remove` leaves).
pub open spec fn swap_removed<C>(entries: Seq<Entry<C>>, i: int) -> Seq<Entry<C>> {
    entries.update(i, entries.last()).drop_last()
}

/// How providing a codec for `key` changes the pool from `before` to
/// `after`: the first idle codec with the key leaves the pool and is reset;
/// after a successful reset it is reused, after a failed one a fresh codec
/// is asked for and the failure reported. With none idle the pool is
/// unchanged and a fresh codec is asked for.
pub open spec fn provided<C: Resettable>(
    before: Seq<Entry<C>>,
    after: Seq<Entry<C>>,
    key: CodecKey,
    provision: Provision<C>,
) -> bool {
    match first_with_key(before, key) {
        Some(i) => after == swap_removed(before, i) && match provision {
            Provision::Reused(c) => before[i].codec.resets_to(c, true),
            Provision::Fresh { reset_recovered } => reset_recovered && (exists|e: C::Error|
                #[trigger] before[i].codec.fails_with(e)) && (exists|a: C|
                #[trigger] before[i].codec.resets_to(a, false)),
        },
        None => after == before && provision == Provision::<C>::Fresh { reset_recovered: false },
    }
}

/// What a request gets from the pool for a key.
pub enum Provision<C> {
    /// A pooled codec whose reset succeeded.
    Reused(C),
    /// No usable pooled codec: build a fresh one. `reset_recovered` is set
    /// when a pooled codec existed but its reset failed and it was dropped.
    Fresh { reset_recovered: bool },
}

impl<C: Resettable> CodecPool<C> {
    pub closed spec fn entries(&self) -> Seq<Entry<C>> {
        self.entries@
    }

    pub fn new() -> (r: CodecPool<C>)
        ensures
            r.entries() == Seq::<Entry<C>>::empty(),
    {
        CodecPool { entries: Vec::new() }
    }

    pub fn len(&self) -> (r: usize)
        ensures
            r == self.entries().len(),
    {
        self.entries.len()
    }

    #[verifier::spinoff_prover]
    fn position(&self, key: CodecKey) -> (r: Option<usize>)
        ensures
            match r {
                Some(i) => first_with_key(self.entries(), key) == Some(i as int),
                None => first_with_key(self.entries(), key) is None,
            },
    {
        let mut i: usize = 0;
        while i < self.entries.len()
            invariant
                i <= self.entries@.len(),
                forall|j: int| 0 <= j < i ==> (#[trigger] self.entries@[j]).key != key,
            decreases self.entries@.len() - i,
        {
            if self.entries[i].key == key {
                let ghost e = self.entries@;
                assert(e[i as int].key == key);
                let ghost w = first_with_key(e, key)->0;
                assert(w == i as int) by {
                    if w < i {
                        assert(e[w].key != key);
                    } else if w > i {
                        assert(e[i as int].key != key);
                    }
                }
                return Some(i);
            }
            i = i + 1;
        }
        None
    }

    /// Takes the first idle codec matching `key` and resets it. Whether the
    /// reset succeeds or fails, the entry leaves the pool; a failed reset
    /// drops the codec and reports the error. `Ok(None)` means no codec with
    /// `key` is idle, and the pool is unchanged.
    #[verifier::spinoff_prover]
    pub fn acquire(&mut self, key: CodecKey) -> (r: Result<Option<C>, C::Error>)
        ensures
            match first_with_key(old(self).entries(), key) {
                Some(i) => final(self).entries() == swap_removed(old(self).entries(), i)
                    && reset_gave(old(self).entries()[i].codec, r),
                None => final(self).entries() == old(self).entries() && r matches Ok(None),
            },
    {
        let index = match self.position(key) {
            Some(index) => index,
            None => return Ok(None),
        };
        let ghost before = self.entries@;
        let entry = self.entries.swap_remove(index);
        assert(self.entries@ =~= swap_removed(before, index as int));
        let mut codec = entry.codec;
        let outcome = codec.reset();
        match outcome {
            Ok(()) => Ok(Some(codec)),
            Err(e) => {
                assert(before[index as int].codec.resets_to(codec, false));
                Err(e)
            },
        }
    }

    /// Returns a finished codec to the pool, dropping it when the pool
    /// already holds `MAX_IDLE` codecs.
    pub fn release(&mut self, key: CodecKey, codec: C)
        ensures
            final(self).entries() == if old(self).entries().len() < MAX_IDLE {
                old(self).entries().push(Entry { key, codec })
            } else {
                old(self).entries()
            },
    {
        if self.entries.len() < MAX_IDLE {
            self.entries.push(Entry { key, codec });
        }
    }

    /// Provides a codec for `key`: a reset pooled one if available, otherwise
    /// the instruction to build a fresh one, noting a failed reset.
    #[verifier::spinoff_prover]
    pub fn provide(&mut self, key: CodecKey) -> (r: Provision<C>)
        ensures
            provided(old(self).entries(), final(self).entries(), key, r),
    {
        let ghost before = self.entries();
        match self.acquire(key) {
            Ok(Some(codec)) => Provision::Reused(codec),
            Ok(None) => Provision::Fresh { reset_recovered: false },
            Err(e) => {
                proof {
                    let i = first_with_key(before, key)->0;
                    assert(before[i].codec.fails_with(e));
                    let a = choose|a: C| #[trigger] before[i].codec.resets_to(a, false);
                    assert(before[i].codec.resets_to(a, false));
                }
                Provision::Fresh { reset_recovered: true }
            },
        }
    }
}

/// The pool never holds more than `MAX_IDLE` idle codecs: releasing into a
/// pool within the bound keeps it within the bound, and acquiring only shrinks it.
pub proof fn lemma_pool_bounded<C>(before: Seq<Entry<C>>, key: CodecKey, codec: C)
    requires
        before.len() <= MAX_IDLE,
    ensures
        (if before.len() < MAX_IDLE {
            before.push(Entry { key, codec })
        } else {
            before
        }).len() <= MAX_IDLE,
        first_with_key(before, key) matches Some(i) ==> swap_removed(before, i).len() < before.len(),
{
}

/// A pooled codec whose reset cannot fail is handed out reset; one whose
/// reset cannot succeed gives its reset error.
pub proof fn lemma_reset_outcome<C: Resettable>(codec: C, r: Result<Option<C>, C::Error>)
    requires
        reset_gave(codec, r),
    ensures
        (forall|a: C| !#[trigger] codec.resets_to(a, false)) ==> (r matches Ok(Some(after))
            && codec.resets_to(after, true)),
        (forall|a: C| !#[trigger] codec.resets_to(a, true)) ==> (r matches Err(e) && codec.fails_with(
            e,
        )),
{
}

/// When some entry has `key`, a first such entry exists.
pub proof fn lemma_first_with_key_exists<C>(entries: Seq<Entry<C>>, key: CodecKey, i: int)
    requires
        0 <= i < entries.len(),
        entries[i].key == key,
    ensures
        first_with_key(entries, key) is Some,
    decreases i,
{
    if exists|j: int| 0 <= j < i && (#[trigger] entries[j]).key == key {
        let j = choose|j: int| 0 <= j < i && (#[trigger] entries[j]).key == key;
        lemma_first_with_key_exists(entries, key, j);
    } else {
        assert(forall|j: int| 0 <= j < i ==> (#[trigger] entries[j]).key != key);
    }
}

/// A codec released into a pool with room is found again by the next
/// acquire of the same key.
pub proof fn lemma_release_then_acquire_finds<C>(before: Seq<Entry<C>>, key: CodecKey, codec: C)
    ensures
        first_with_key(before.push(Entry { key, codec }), key) is Some,
{
    let after = before.push(Entry { key, codec });
    lemma_first_with_key_exists(after, key, before.len() as int);
}

} // verus!
