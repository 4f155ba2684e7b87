//! Named presets for the `compress` directive.
//!
//! `compress fast|balanced` selects a [`Profile`]; its [`Preset`] supplies a
//! turnkey configuration (which codecs to enable, their levels and window, and
//! `min_length`). Explicit `compress_*` directives still override any preset
//! field. `compress on` maps to [`Profile::Custom`], which contributes nothing.

use vstd::prelude::*;

use crate::text::{ascii_eq_ignore_case, eq_ignore_ascii_case};

verus! {

/// A preset bundle applied when a named profile is selected. `deflate` is
/// never enabled by a preset; its level is still supplied for configurations
/// that turn it on explicitly.
#[derive(Clone, Copy, Debug, PartialEq, Eq, Structural)]
pub struct Preset {
    pub gzip: bool,
    pub brotli: bool,
    pub zstd: bool,
    pub gzip_level: u32,
    pub deflate_level: u32,
    pub brotli_level: u32,
    pub brotli_window: u32,
    pub zstd_level: i32,
    pub min_length: usize,
}

/// Which preset the `compress` directive selected. `Custom` is `compress on`.
#[derive(Clone, Copy, Debug, PartialEq, Eq, Structural)]
pub enum Profile {
    Custom,
    Fast,
    Balanced,
}

/// The profile a `compress` argument names (other than `on` and `off`).
pub open spec fn profile_named(value: Seq<char>) -> Option<Profile> {
    if ascii_eq_ignore_case(value, "fast"@) {
        Some(Profile::Fast)
    } else if ascii_eq_ignore_case(value, "balanced"@) {
        Some(Profile::Balanced)
    } else {
        None
    }
}

impl Profile {
    /// The tuning bundle of each tier; `Custom` contributes none.
    pub open spec fn bundle(self) -> Option<Preset> {
        match self {
            Profile::Custom => None,
            Profile::Fast => Some(
                Preset {
                    gzip: true,
                    brotli: true,
                    zstd: true,
                    gzip_level: 4,
                    deflate_level: 4,
                    brotli_level: 4,
                    brotli_window: 18,
                    zstd_level: 3,
                    min_length: 256,
                },
            ),
            Profile::Balanced => Some(
                Preset {
                    gzip: true,
                    brotli: true,
                    zstd: true,
                    gzip_level: 6,
                    deflate_level: 6,
                    brotli_level: 5,
                    brotli_window: 22,
                    zstd_level: 6,
                    min_length: 256,
                },
            ),
        }
    }

    /// Parses a `compress` argument that names a profile, ignoring ASCII case.
    pub fn parse(value: &str) -> (r: Option<Profile>)
        ensures
            r == profile_named(value@),
    {
        if eq_ignore_ascii_case(value, "fast") {
            Some(Profile::Fast)
        } else if eq_ignore_ascii_case(value, "balanced") {
            Some(Profile::Balanced)
        } else {
            None
        }
    }

    /// Returns the tuning bundle for a named tier; `Custom` contributes none.
    pub fn preset(self) -> (r: Option<Preset>)
        ensures
            r == self.bundle(),
    {
        match self {
            Profile::Custom => None,
            Profile::Fast => Some(
                Preset {
                    gzip: true,
                    brotli: true,
                    zstd: true,
                    gzip_level: 4,
                    deflate_level: 4,
                    brotli_level: 4,
                    brotli_window: 18,
                    zstd_level: 3,
                    min_length: 256,
                },
            ),
            Profile::Balanced => Some(
                Preset {
                    gzip: true,
                    brotli: true,
                    zstd: true,
                    gzip_level: 6,
                    deflate_level: 6,
                    brotli_level: 5,
                    brotli_window: 22,
                    zstd_level: 6,
                    min_length: 256,
                },
            ),
        }
    }
}

} // verus!
