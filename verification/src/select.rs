//! Server-side codec selection: honor the client's `Accept-Encoding` quality
//! values, break ties by the server priority order, and provide the codec
//! (reused from the worker pool when possible) with its pool key.

use vstd::prelude::*;

use crate::coding::{ContentCoding, StatsMode};
use crate::config::Resolved;
use crate::pool::{CodecKey, CodecPool, Provision, Resettable, provided};

verus! {

/// Which codec backends are compiled into this build.
#[derive(Clone, Copy, Debug, PartialEq, Eq, Structural)]
pub struct CompiledCodecs {
    pub gzip: bool,
    pub deflate: bool,
    pub brotli: bool,
    pub zstd: bool,
}

/// The client's quality value (in thousandths, `0` = not acceptable) for
/// each runtime coding, as the parsed `Accept-Encoding` header gives them.
#[derive(Clone, Copy, Debug, PartialEq, Eq, Structural)]
pub struct Qualities {
    pub gzip: u16,
    pub deflate: u16,
    pub brotli: u16,
    pub zstd: u16,
}

impl Qualities {
    pub open spec fn of(self, c: ContentCoding) -> u16 {
        match c {
            ContentCoding::Gzip => self.gzip,
            ContentCoding::Deflate => self.deflate,
            ContentCoding::Brotli => self.brotli,
            ContentCoding::Zstd => self.zstd,
            ContentCoding::Identity => 0,
        }
    }

    pub fn quality(&self, c: ContentCoding) -> (r: u16)
        ensures
            r == self.of(c),
    {
        match c {
            ContentCoding::Gzip => self.gzip,
            ContentCoding::Deflate => self.deflate,
            ContentCoding::Brotli => self.brotli,
            ContentCoding::Zstd => self.zstd,
            ContentCoding::Identity => 0,
        }
    }
}

/// Why no codec could be provided for a response.
#[derive(Clone, Copy, Debug, PartialEq, Eq, Structural)]
pub enum CodecSelectionFailure {
    Initialization,
    NotAcceptable,
}

/// A coding is enabled in the resolved configuration and compiled in.
pub open spec fn is_available(resolved: &Resolved, compiled: CompiledCodecs, c: ContentCoding) -> bool {
    match c {
        ContentCoding::Gzip => compiled.gzip && resolved.gzip is Some,
        ContentCoding::Deflate => compiled.deflate && resolved.deflate is Some,
        ContentCoding::Brotli => compiled.brotli && resolved.brotli is Some,
        ContentCoding::Zstd => compiled.zstd && resolved.zstd is Some,
        ContentCoding::Identity => false,
    }
}

/// A coding the server may send: available and acceptable to the client.
pub open spec fn is_candidate(
    resolved: &Resolved,
    compiled: CompiledCodecs,
    accept: Qualities,
    c: ContentCoding,
) -> bool {
    is_available(resolved, compiled, c) && accept.of(c) > 0
}

/// Position `b` of `order` holds the coding the server selects among the
/// first `n` positions: a candidate of highest client quality, the earliest
/// such one in the server's order.
pub open spec fn is_best_within(
    resolved: &Resolved,
    compiled: CompiledCodecs,
    accept: Qualities,
    order: Seq<ContentCoding>,
    b: int,
    n: int,
) -> bool {
    &&& 0 <= b < n <= order.len()
    &&& is_candidate(resolved, compiled, accept, order[b])
    &&& forall|j: int|
        0 <= j < n && is_candidate(resolved, compiled, accept, #[trigger] order[j]) ==> accept.of(
            order[j],
        ) <= accept.of(order[b])
    &&& forall|j: int|
        0 <= j < b && is_candidate(resolved, compiled, accept, #[trigger] order[j]) ==> accept.of(
            order[j],
        ) < accept.of(order[b])
}

/// Whether a coding is enabled and its backend is compiled into this build.
pub fn available(resolved: &Resolved, compiled: &CompiledCodecs, coding: ContentCoding) -> (r: bool)
    ensures
        r == is_available(resolved, *compiled, coding),
{
    match coding {
        ContentCoding::Gzip => compiled.gzip && resolved.gzip.is_some(),
        ContentCoding::Deflate => compiled.deflate && resolved.deflate.is_some(),
        ContentCoding::Brotli => compiled.brotli && resolved.brotli.is_some(),
        ContentCoding::Zstd => compiled.zstd && resolved.zstd.is_some(),
        ContentCoding::Identity => false,
    }
}

/// Selects the coding to send, or `None` for identity: among the available
/// codings the client accepts, one with the highest quality; equal qualities
/// go to the coding earliest in the resolved priority order.
pub fn choose_coding(resolved: &Resolved, compiled: &CompiledCodecs, accept: &Qualities) -> (r:
    Option<ContentCoding>)
    ensures
        r is None <==> forall|j: int|
            0 <= j < resolved.priority@.len() ==> !is_candidate(
                resolved,
                *compiled,
                *accept,
                #[trigger] resolved.priority@[j],
            ),
        r matches Some(c) ==> exists|b: int|
            is_best_within(resolved, *compiled, *accept, resolved.priority@, b, resolved.priority@.len() as int)
                && resolved.priority@[b] == c,
{
    let order = &resolved.priority;
    let ghost seq = order@;
    let mut best: Option<(usize, u16)> = None;
    let mut i: usize = 0;
    while i < order.len()
        invariant
            seq == order@,
            seq == resolved.priority@,
            i <= seq.len(),
            match best {
                None => forall|j: int|
                    0 <= j < i ==> !is_candidate(resolved, *compiled, *accept, #[trigger] seq[j]),
                Some((b, q)) => is_best_within(resolved, *compiled, *accept, seq, b as int, i as int)
                    && q == accept.of(seq[b as int]),
            },
        decreases seq.len() - i,
    {
        let coding = order[i];
        if available(resolved, compiled, coding) {
            let quality = accept.quality(coding);
            match best {
                Some((_, best_quality)) if quality <= best_quality => {},
                _ => {
                    if quality > 0 {
                        best = Some((i, quality));
                    }
                },
            }
        }
        i = i + 1;
    }
    match best {
        Some((b, _)) => Some(order[b]),
        None => None,
    }
}

/// The discriminating compression level for a coding's pool key.
pub open spec fn level_for(resolved: &Resolved, c: ContentCoding) -> Option<i32> {
    match c {
        ContentCoding::Gzip => match resolved.gzip {
            Some(l) => if l <= i32::MAX { Some(l as i32) } else { None },
            None => None,
        },
        ContentCoding::Deflate => match resolved.deflate {
            Some(l) => if l <= i32::MAX { Some(l as i32) } else { None },
            None => None,
        },
        ContentCoding::Brotli => match resolved.brotli {
            Some((l, _)) => if l <= i32::MAX { Some(l as i32) } else { None },
            None => None,
        },
        ContentCoding::Zstd => resolved.zstd,
        ContentCoding::Identity => None,
    }
}

/// The pool key of a coding: its level, and the Brotli window (`0` otherwise).
pub open spec fn key_for(resolved: &Resolved, c: ContentCoding) -> Option<CodecKey> {
    match level_for(resolved, c) {
        Some(level) => Some(
            CodecKey {
                coding: c,
                level,
                window: match c {
                    ContentCoding::Brotli => match resolved.brotli {
                        Some((_, w)) => w,
                        None => 0,
                    },
                    _ => 0,
                },
            },
        ),
        None => None,
    }
}

fn level_from_u32(level: Option<u32>) -> (r: Option<i32>)
    ensures
        r == match level {
            Some(l) => if l <= i32::MAX { Some(l as i32) } else { None },
            None => None,
        },
{
    match level {
        Some(l) => if l <= 0x7fff_ffff {
            Some(l as i32)
        } else {
            None
        },
        None => None,
    }
}

/// The discriminating compression level for a coding's pool key.
pub fn level_i32(resolved: &Resolved, coding: ContentCoding) -> (r: Option<i32>)
    ensures
        r == level_for(resolved, coding),
{
    match coding {
        ContentCoding::Gzip => level_from_u32(resolved.gzip),
        ContentCoding::Deflate => level_from_u32(resolved.deflate),
        ContentCoding::Brotli => level_from_u32(
            match resolved.brotli {
                Some((l, _)) => Some(l),
                None => None,
            },
        ),
        ContentCoding::Zstd => resolved.zstd,
        ContentCoding::Identity => None,
    }
}

/// The pool key for `coding` under `resolved`.
pub fn codec_key(resolved: &Resolved, coding: ContentCoding) -> (r: Option<CodecKey>)
    ensures
        r == key_for(resolved, coding),
{
    let level = match level_i32(resolved, coding) {
        Some(level) => level,
        None => return None,
    };
    let window = match coding {
        ContentCoding::Brotli => match resolved.brotli {
            Some((_, w)) => w,
            None => 0,
        },
        _ => 0,
    };
    Some(CodecKey::new(coding, level, window))
}

/// A selected coding, its pool key, and the pool's provision for it.
pub struct SelectedCodec<C> {
    pub key: CodecKey,
    pub provision: Provision<C>,
}

/// Provides a codec for `coding`: a reset instance from the worker pool if one
/// is idle, otherwise the instruction to build a fresh one.
pub fn build<C: Resettable>(pool: &mut CodecPool<C>, resolved: &Resolved, coding: ContentCoding) -> (r:
    Result<SelectedCodec<C>, CodecSelectionFailure>)
    ensures
        match key_for(resolved, coding) {
            None => r == Err::<SelectedCodec<C>, _>(CodecSelectionFailure::Initialization)
                && final(pool).entries() == old(pool).entries(),
            Some(key) => r matches Ok(s) && s.key == key && provided(
                old(pool).entries(),
                final(pool).entries(),
                key,
                s.provision,
            ),
        },
{
    let key = match codec_key(resolved, coding) {
        Some(key) => key,
        None => return Err(CodecSelectionFailure::Initialization),
    };
    let provision = pool.provide(key);
    Ok(SelectedCodec { key, provision })
}

/// Selects a coding and provides its codec, or `None` for identity.
pub fn choose_codec<C: Resettable>(
    pool: &mut CodecPool<C>,
    resolved: &Resolved,
    compiled: &CompiledCodecs,
    accept: &Qualities,
) -> (r: Result<Option<SelectedCodec<C>>, CodecSelectionFailure>)
    ensures
        r matches Ok(None) <==> forall|j: int|
            0 <= j < resolved.priority@.len() ==> !is_candidate(
                resolved,
                *compiled,
                *accept,
                #[trigger] resolved.priority@[j],
            ),
        r matches Ok(Some(s)) ==> exists|b: int|
            is_best_within(resolved, *compiled, *accept, resolved.priority@, b, resolved.priority@.len() as int)
                && key_for(resolved, resolved.priority@[b]) == Some(s.key),
        r matches Ok(Some(s)) ==> provided(old(pool).entries(), final(pool).entries(), s.key, s.provision),
        !(r matches Ok(Some(_))) ==> final(pool).entries() == old(pool).entries(),
        r matches Err(e) ==> e == CodecSelectionFailure::Initialization,
        r is Err <==> exists|b: int|
            is_best_within(resolved, *compiled, *accept, resolved.priority@, b, resolved.priority@.len() as int)
                && key_for(resolved, resolved.priority@[b]) is None,
{
    match choose_coding(resolved, compiled, accept) {
        Some(coding) => {
            let ghost n = resolved.priority@.len() as int;
            let ghost b = choose|b: int|
                is_best_within(resolved, *compiled, *accept, resolved.priority@, b, n)
                    && resolved.priority@[b] == coding;
            proof {
                assert forall|b2: int|
                    is_best_within(resolved, *compiled, *accept, resolved.priority@, b2, n) implies b2
                    == b by {
                    lemma_best_unique(resolved, *compiled, *accept, resolved.priority@, b, b2, n);
                }
            }
            match build(pool, resolved, coding) {
                Ok(selected) => Ok(Some(selected)),
                Err(e) => Err(e),
            }
        },
        None => {
            proof {
                assert forall|b: int|
                    !is_best_within(
                        resolved,
                        *compiled,
                        *accept,
                        resolved.priority@,
                        b,
                        resolved.priority@.len() as int,
                    ) by {
                    if is_best_within(
                        resolved,
                        *compiled,
                        *accept,
                        resolved.priority@,
                        b,
                        resolved.priority@.len() as int,
                    ) {
                        assert(is_candidate(resolved, *compiled, *accept, resolved.priority@[b]));
                    }
                }
            }
            Ok(None)
        },
    }
}

/// The complete decision handed to the submit layer of the header filter.
pub struct Plan<C> {
    pub key: CodecKey,
    pub provision: Provision<C>,
    pub coding: ContentCoding,
    pub vary: bool,
    pub buffer_size: usize,
    pub stats_mode: StatsMode,
    pub buffer_count: usize,
}

/// Applies eligibility, negotiation, and codec selection. `eligible` is the
/// response-eligibility verdict (enabled, main successful response, not yet
/// encoded, long enough, and of a configured MIME type).
pub fn decide<C: Resettable>(
    pool: &mut CodecPool<C>,
    resolved: &Resolved,
    compiled: &CompiledCodecs,
    accept: &Qualities,
    eligible: bool,
) -> (r: Result<Option<Plan<C>>, CodecSelectionFailure>)
    ensures
        !eligible ==> (r matches Ok(None) && final(pool).entries() == old(pool).entries()),
        eligible ==> (r matches Ok(None) <==> forall|j: int|
            0 <= j < resolved.priority@.len() ==> !is_candidate(
                resolved,
                *compiled,
                *accept,
                #[trigger] resolved.priority@[j],
            )),
        r matches Ok(Some(p)) ==> {
            &&& p.coding == p.key.coding
            &&& p.vary == resolved.vary
            &&& p.buffer_size == resolved.buffer_size
            &&& p.buffer_count == resolved.buffer_count
            &&& p.stats_mode == resolved.stats_mode
            &&& exists|b: int|
                is_best_within(resolved, *compiled, *accept, resolved.priority@, b, resolved.priority@.len() as int)
                    && key_for(resolved, resolved.priority@[b]) == Some(p.key)
            &&& provided(old(pool).entries(), final(pool).entries(), p.key, p.provision)
        },
        !(r matches Ok(Some(_))) ==> final(pool).entries() == old(pool).entries(),
        r matches Err(e) ==> e == CodecSelectionFailure::Initialization,
        r is Err <==> eligible && exists|b: int|
            is_best_within(resolved, *compiled, *accept, resolved.priority@, b, resolved.priority@.len() as int)
                && key_for(resolved, resolved.priority@[b]) is None,
{
    if !eligible {
        return Ok(None);
    }
    let selected = match choose_codec(pool, resolved, compiled, accept) {
        Ok(Some(selected)) => selected,
        Ok(None) => return Ok(None),
        Err(e) => return Err(e),
    };
    let coding = selected.key.coding;
    Ok(
        Some(
            Plan {
                key: selected.key,
                provision: selected.provision,
                coding,
                vary: resolved.vary,
                buffer_size: resolved.buffer_size,
                stats_mode: resolved.stats_mode,
                buffer_count: resolved.buffer_count,
            },
        ),
    )
}

/// The selection is unique: at most one position is the earliest candidate
/// of highest client quality, so the server order only breaks ties.
pub proof fn lemma_best_unique(
    resolved: &Resolved,
    compiled: CompiledCodecs,
    accept: Qualities,
    order: Seq<ContentCoding>,
    b1: int,
    b2: int,
    n: int,
)
    requires
        is_best_within(resolved, compiled, accept, order, b1, n),
        is_best_within(resolved, compiled, accept, order, b2, n),
    ensures
        b1 == b2,
{
    if b1 < b2 {
        assert(accept.of(order[b1]) < accept.of(order[b2]));
        assert(accept.of(order[b2]) <= accept.of(order[b1]));
    } else if b2 < b1 {
        assert(accept.of(order[b2]) < accept.of(order[b1]));
        assert(accept.of(order[b1]) <= accept.of(order[b2]));
    }
}

/// A candidate the client prefers strictly over every other candidate is
/// selected whatever the server order.
pub proof fn lemma_strict_preference_wins(
    resolved: &Resolved,
    compiled: CompiledCodecs,
    accept: Qualities,
    order: Seq<ContentCoding>,
    b: int,
    w: int,
)
    requires
        is_best_within(resolved, compiled, accept, order, b, order.len() as int),
        0 <= w < order.len(),
        is_candidate(resolved, compiled, accept, order[w]),
        forall|j: int|
            0 <= j < order.len() && j != w && is_candidate(resolved, compiled, accept, #[trigger] order[j])
                ==> accept.of(order[j]) < accept.of(order[w]),
    ensures
        b == w,
{
    if b != w {
        assert(accept.of(order[b]) < accept.of(order[w]));
        assert(accept.of(order[w]) <= accept.of(order[b]));
    }
}

/// A coding the client marks `q=0`, or does not list, is never selected,
/// nor is one that is disabled or not compiled in.
pub proof fn lemma_selected_is_acceptable(
    resolved: &Resolved,
    compiled: CompiledCodecs,
    accept: Qualities,
    order: Seq<ContentCoding>,
    b: int,
    n: int,
)
    requires
        is_best_within(resolved, compiled, accept, order, b, n),
    ensures
        accept.of(order[b]) > 0,
        is_available(resolved, compiled, order[b]),
        order[b] != ContentCoding::Identity,
{
}

} // verus!
