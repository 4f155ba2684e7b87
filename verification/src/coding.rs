//! Content codings and the small configuration enumerations shared by the
//! configuration, selection, and static-sidecar layers.

use vstd::prelude::*;

use crate::text::{ascii_eq_ignore_case, eq_ignore_ascii_case, lower_code};

verus! {

/// An HTTP content coding the module can negotiate.
#[derive(Clone, Copy, Debug, PartialEq, Eq, Structural)]
pub enum ContentCoding {
    Identity,
    Gzip,
    Deflate,
    Brotli,
    Zstd,
}

impl ContentCoding {
    /// Whether a codec backend exists for this coding (every coding but identity).
    pub open spec fn is_runtime(self) -> bool {
        self != ContentCoding::Identity
    }

    /// The `Content-Encoding` token of this coding.
    pub open spec fn token(self) -> Seq<char> {
        match self {
            ContentCoding::Identity => "identity"@,
            ContentCoding::Gzip => "gzip"@,
            ContentCoding::Deflate => "deflate"@,
            ContentCoding::Brotli => "br"@,
            ContentCoding::Zstd => "zstd"@,
        }
    }

    /// The `Content-Encoding` token of this coding.
    pub fn as_str(self) -> (r: &'static str)
        ensures
            r@ == self.token(),
    {
        match self {
            ContentCoding::Identity => "identity",
            ContentCoding::Gzip => "gzip",
            ContentCoding::Deflate => "deflate",
            ContentCoding::Brotli => "br",
            ContentCoding::Zstd => "zstd",
        }
    }
}

/// The runtime coding a `compress_priority` argument names, if any.
pub open spec fn runtime_coding_named(value: Seq<char>) -> Option<ContentCoding> {
    if ascii_eq_ignore_case(value, "gzip"@) {
        Some(ContentCoding::Gzip)
    } else if ascii_eq_ignore_case(value, "deflate"@) {
        Some(ContentCoding::Deflate)
    } else if ascii_eq_ignore_case(value, "br"@) {
        Some(ContentCoding::Brotli)
    } else if ascii_eq_ignore_case(value, "zstd"@) {
        Some(ContentCoding::Zstd)
    } else {
        None
    }
}

/// Parses a `compress_priority` argument; identity and unknown codings are refused.
pub fn parse_runtime_coding(value: &str) -> (r: Option<ContentCoding>)
    ensures
        r == runtime_coding_named(value@),
{
    if eq_ignore_ascii_case(value, "gzip") {
        Some(ContentCoding::Gzip)
    } else if eq_ignore_ascii_case(value, "deflate") {
        Some(ContentCoding::Deflate)
    } else if eq_ignore_ascii_case(value, "br") {
        Some(ContentCoding::Brotli)
    } else if eq_ignore_ascii_case(value, "zstd") {
        Some(ContentCoding::Zstd)
    } else {
        None
    }
}

/// A coding's `Content-Encoding` token names that coding and no other: each
/// runtime coding's token is read back as that same coding, identity's is
/// read as no runtime coding, and two codings never share a token.
pub proof fn lemma_token_names_coding(c: ContentCoding, d: ContentCoding)
    ensures
        c.is_runtime() ==> runtime_coding_named(c.token()) == Some(c),
        !c.is_runtime() ==> runtime_coding_named(c.token()) is None,
        c != d ==> c.token() != d.token(),
{
    reveal_strlit("identity");
    reveal_strlit("gzip");
    reveal_strlit("deflate");
    reveal_strlit("br");
    reveal_strlit("zstd");
    // `gzip` and `zstd` are the only tokens of equal length; they differ first.
    assert(lower_code("gzip"@[0]) != lower_code("zstd"@[0]));
    assert("gzip"@[0] != "zstd"@[0]);
    assert(ascii_eq_ignore_case(c.token(), c.token()));
}

/// The `compress_static` mode.
#[derive(Clone, Copy, Debug, PartialEq, Eq, Structural)]
pub enum StaticMode {
    Off,
    On,
    Always,
}

/// The `compress_stats` mode.
#[derive(Clone, Copy, Debug, PartialEq, Eq, Structural)]
pub enum StatsMode {
    Off,
    Variables,
    ServerTiming,
}

} // verus!
