//! Rust-owned location configuration: directive value parsing, parent/child
//! inheritance, and the defaults-applied request-path snapshot.
//!
//! Precedence is explicit directive > profile preset > built-in default,
//! independent of the order in which directives appear.

use vstd::prelude::*;

use crate::coding::{ContentCoding, StaticMode, StatsMode, parse_runtime_coding, runtime_coding_named};
use crate::profile::{Preset, Profile, profile_named};
use crate::text::{
    ascii_eq_ignore_case, eq_ignore_ascii_case, parse_digit_range, parse_digits, parse_unsigned, signed_text_value,
    str_eq, unsigned_text_value, digits_text_value,
};

verus! {

pub const DEFAULT_GZIP_LEVEL: u32 = 6;
pub const DEFAULT_DEFLATE_LEVEL: u32 = 6;
pub const DEFAULT_BROTLI_LEVEL: u32 = 6;
/// Window bits of the documented `512k` default Brotli window.
pub const DEFAULT_BROTLI_WINDOW: u32 = 19;
pub const DEFAULT_ZSTD_LEVEL: i32 = 3;
pub const DEFAULT_MIN_LENGTH: usize = 20;
pub const DEFAULT_BUFFER_COUNT: usize = 16;
pub const DEFAULT_BUFFER_SIZE: usize = 8192;

// ---------------------------------------------------------------------------
// Directive values
// ---------------------------------------------------------------------------

/// `on` / `off`, ignoring ASCII case.
pub open spec fn flag_named(value: Seq<char>) -> Option<bool> {
    if ascii_eq_ignore_case(value, "on"@) {
        Some(true)
    } else if ascii_eq_ignore_case(value, "off"@) {
        Some(false)
    } else {
        None
    }
}

/// `off` / `on` / `always`, ignoring ASCII case.
pub open spec fn static_named(value: Seq<char>) -> Option<StaticMode> {
    if ascii_eq_ignore_case(value, "off"@) {
        Some(StaticMode::Off)
    } else if ascii_eq_ignore_case(value, "on"@) {
        Some(StaticMode::On)
    } else if ascii_eq_ignore_case(value, "always"@) {
        Some(StaticMode::Always)
    } else {
        None
    }
}

/// `off` / `variables` / `server_timing`, ignoring ASCII case.
pub open spec fn stats_named(value: Seq<char>) -> Option<StatsMode> {
    if ascii_eq_ignore_case(value, "off"@) {
        Some(StatsMode::Off)
    } else if ascii_eq_ignore_case(value, "variables"@) {
        Some(StatsMode::Variables)
    } else if ascii_eq_ignore_case(value, "server_timing"@) {
        Some(StatsMode::ServerTiming)
    } else {
        None
    }
}

/// A `u32` decimal within `min..=max`.
pub open spec fn level_named(value: Seq<char>, min: u32, max: u32) -> Option<u32> {
    match unsigned_text_value(value) {
        Some(n) => if n <= u32::MAX && min <= n && n <= max {
            Some(n as u32)
        } else {
            None
        },
        None => None,
    }
}

/// An `i32` decimal within `-7..=22` (zstd allows negative fast levels).
pub open spec fn zstd_level_named(value: Seq<char>) -> Option<i32> {
    match signed_text_value(value) {
        Some(n) => if -7 <= n && n <= 22 {
            Some(n as i32)
        } else {
            None
        },
        None => None,
    }
}

/// The window bits of a Brotli window of `bytes` bytes: a power of two from
/// `1k` (10 bits) to `16m` (24 bits).
pub open spec fn window_size_bits(bytes: nat) -> Option<u32> {
    if bytes == 1024 {
        Some(10)
    } else if bytes == 2048 {
        Some(11)
    } else if bytes == 4096 {
        Some(12)
    } else if bytes == 8192 {
        Some(13)
    } else if bytes == 16384 {
        Some(14)
    } else if bytes == 32768 {
        Some(15)
    } else if bytes == 65536 {
        Some(16)
    } else if bytes == 131072 {
        Some(17)
    } else if bytes == 262144 {
        Some(18)
    } else if bytes == 524288 {
        Some(19)
    } else if bytes == 1048576 {
        Some(20)
    } else if bytes == 2097152 {
        Some(21)
    } else if bytes == 4194304 {
        Some(22)
    } else if bytes == 8388608 {
        Some(23)
    } else if bytes == 16777216 {
        Some(24)
    } else {
        None
    }
}

/// A `compress_brotli_window` value, as window bits: a size from `1k` to
/// `16m` that is a power of two, written in bytes or with a `k` or `m` suffix
/// (either case), or the window bits `10..=24` themselves.
pub open spec fn window_named(value: Seq<char>) -> Option<u32> {
    if value.len() > 1 && (value.last() == 'k' || value.last() == 'K') {
        match digits_text_value(value.drop_last()) {
            Some(n) => window_size_bits(n * 1024),
            None => None,
        }
    } else if value.len() > 1 && (value.last() == 'm' || value.last() == 'M') {
        match digits_text_value(value.drop_last()) {
            Some(n) => window_size_bits(n * 1048576),
            None => None,
        }
    } else {
        match unsigned_text_value(value) {
            Some(n) => if 10 <= n && n <= 24 {
                Some(n as u32)
            } else {
                window_size_bits(n)
            },
            None => None,
        }
    }
}

/// A `usize` decimal.
pub open spec fn size_named(value: Seq<char>) -> Option<usize> {
    match unsigned_text_value(value) {
        Some(n) => if n <= usize::MAX {
            Some(n as usize)
        } else {
            None
        },
        None => None,
    }
}

/// The effect of a `compress` argument: the new `enable`, and the new profile
/// (`None` keeps the current one, as `compress off` does).
pub open spec fn compress_named(value: Seq<char>) -> Option<(bool, Option<Profile>)> {
    if ascii_eq_ignore_case(value, "off"@) {
        Some((false, None))
    } else if ascii_eq_ignore_case(value, "on"@) {
        Some((true, Some(Profile::Custom)))
    } else {
        match profile_named(value) {
            Some(p) => Some((true, Some(p))),
            None => None,
        }
    }
}

/// A valid `compress_priority` list: one to four distinct runtime codings.
pub open spec fn priority_ok(p: Seq<ContentCoding>) -> bool {
    &&& 1 <= p.len() <= 4
    &&& forall|i: int| 0 <= i < p.len() ==> (#[trigger] p[i]).is_runtime()
    &&& forall|i: int, j: int| 0 <= i < j < p.len() ==> p[i] != p[j]
}

/// The codings a `compress_priority` argument list names, when every argument
/// is a runtime coding, none repeats, and there are one to four of them.
pub open spec fn priority_named(values: Seq<Seq<char>>) -> Option<Seq<ContentCoding>> {
    if (forall|i: int| 0 <= i < values.len() ==> (#[trigger] runtime_coding_named(values[i])) is Some)
        && (forall|i: int, j: int|
        0 <= i < j < values.len() ==> runtime_coding_named(values[i])->0 != runtime_coding_named(
            values[j],
        )->0) && 1 <= values.len() <= 4 {
        Some(Seq::new(values.len(), |i: int| runtime_coding_named(values[i])->0))
    } else {
        None
    }
}

pub open spec fn strings_view(v: Seq<String>) -> Seq<Seq<char>> {
    v.map_values(|s: String| s@)
}

/// The `compress_buffers` arguments: a positive count and a positive size,
/// the size as NGINX's size parser returned it (negative on error).
pub open spec fn buffers_named(count: Seq<char>, size: isize) -> Option<(usize, usize)> {
    match size_named(count) {
        Some(c) => if c > 0 && size > 0 {
            Some((c, size as usize))
        } else {
            None
        },
        None => None,
    }
}

// ---------------------------------------------------------------------------
// The configuration model
// ---------------------------------------------------------------------------

/// The TAKE1 directives of this module.
#[derive(PartialEq, Eq, Structural)]
pub enum Directive {
    Compress,
    Static,
    Gzip,
    Deflate,
    Brotli,
    Zstd,
    Vary,
    Stats,
    GzipLevel,
    DeflateLevel,
    BrotliLevel,
    BrotliWindow,
    ZstdLevel,
    MinLength,
}

/// The directive a name selects (names are matched exactly).
pub open spec fn directive_named(name: Seq<char>) -> Option<Directive> {
    if name == "compress"@ {
        Some(Directive::Compress)
    } else if name == "compress_static"@ {
        Some(Directive::Static)
    } else if name == "compress_gzip"@ {
        Some(Directive::Gzip)
    } else if name == "compress_deflate"@ {
        Some(Directive::Deflate)
    } else if name == "compress_brotli"@ {
        Some(Directive::Brotli)
    } else if name == "compress_zstd"@ {
        Some(Directive::Zstd)
    } else if name == "compress_vary"@ {
        Some(Directive::Vary)
    } else if name == "compress_stats"@ {
        Some(Directive::Stats)
    } else if name == "compress_gzip_comp_level"@ {
        Some(Directive::GzipLevel)
    } else if name == "compress_deflate_comp_level"@ {
        Some(Directive::DeflateLevel)
    } else if name == "compress_brotli_comp_level"@ {
        Some(Directive::BrotliLevel)
    } else if name == "compress_brotli_window"@ {
        Some(Directive::BrotliWindow)
    } else if name == "compress_zstd_comp_level"@ {
        Some(Directive::ZstdLevel)
    } else if name == "compress_min_length"@ {
        Some(Directive::MinLength)
    } else {
        None
    }
}

/// One validated directive value, tagged with the setting it stores.
pub enum Setting {
    Compress(bool, Option<Profile>),
    Static(StaticMode),
    Gzip(bool),
    Deflate(bool),
    Brotli(bool),
    Zstd(bool),
    Vary(bool),
    Stats(StatsMode),
    GzipLevel(u32),
    DeflateLevel(u32),
    BrotliLevel(u32),
    BrotliWindow(u32),
    ZstdLevel(i32),
    MinLength(usize),
}

impl Setting {
    pub open spec fn directive(self) -> Directive {
        match self {
            Setting::Compress(..) => Directive::Compress,
            Setting::Static(..) => Directive::Static,
            Setting::Gzip(..) => Directive::Gzip,
            Setting::Deflate(..) => Directive::Deflate,
            Setting::Brotli(..) => Directive::Brotli,
            Setting::Zstd(..) => Directive::Zstd,
            Setting::Vary(..) => Directive::Vary,
            Setting::Stats(..) => Directive::Stats,
            Setting::GzipLevel(..) => Directive::GzipLevel,
            Setting::DeflateLevel(..) => Directive::DeflateLevel,
            Setting::BrotliLevel(..) => Directive::BrotliLevel,
            Setting::BrotliWindow(..) => Directive::BrotliWindow,
            Setting::ZstdLevel(..) => Directive::ZstdLevel,
            Setting::MinLength(..) => Directive::MinLength,
        }
    }
}

pub open spec fn opt_setting<T>(v: Option<T>, f: spec_fn(T) -> Setting) -> Option<Setting> {
    match v {
        Some(x) => Some(f(x)),
        None => None,
    }
}

/// The setting a value of directive `d` stores, or `None` when it is invalid.
pub open spec fn setting_for(d: Directive, value: Seq<char>) -> Option<Setting> {
    match d {
        Directive::Compress => opt_setting(
            compress_named(value),
            |x: (bool, Option<Profile>)| Setting::Compress(x.0, x.1),
        ),
        Directive::Static => opt_setting(static_named(value), |m: StaticMode| Setting::Static(m)),
        Directive::Gzip => opt_setting(flag_named(value), |b: bool| Setting::Gzip(b)),
        Directive::Deflate => opt_setting(flag_named(value), |b: bool| Setting::Deflate(b)),
        Directive::Brotli => opt_setting(flag_named(value), |b: bool| Setting::Brotli(b)),
        Directive::Zstd => opt_setting(flag_named(value), |b: bool| Setting::Zstd(b)),
        Directive::Vary => opt_setting(flag_named(value), |b: bool| Setting::Vary(b)),
        Directive::Stats => opt_setting(stats_named(value), |m: StatsMode| Setting::Stats(m)),
        Directive::GzipLevel => opt_setting(level_named(value, 1, 9), |n: u32| Setting::GzipLevel(n)),
        Directive::DeflateLevel => opt_setting(
            level_named(value, 1, 9),
            |n: u32| Setting::DeflateLevel(n),
        ),
        Directive::BrotliLevel => opt_setting(
            level_named(value, 0, 11),
            |n: u32| Setting::BrotliLevel(n),
        ),
        Directive::BrotliWindow => opt_setting(
            window_named(value),
            |n: u32| Setting::BrotliWindow(n),
        ),
        Directive::ZstdLevel => opt_setting(zstd_level_named(value), |n: i32| Setting::ZstdLevel(n)),
        Directive::MinLength => opt_setting(size_named(value), |n: usize| Setting::MinLength(n)),
    }
}

/// The mathematical content of a [`CompressConfig`]. `None` means "inherit".
pub struct ConfigView {
    pub enable: Option<bool>,
    pub profile: Option<Profile>,
    pub static_mode: Option<StaticMode>,
    pub gzip: Option<bool>,
    pub gzip_level: Option<u32>,
    pub deflate: Option<bool>,
    pub deflate_level: Option<u32>,
    pub brotli: Option<bool>,
    pub brotli_level: Option<u32>,
    pub brotli_window: Option<u32>,
    pub zstd: Option<bool>,
    pub zstd_level: Option<i32>,
    pub min_length: Option<usize>,
    pub vary: Option<bool>,
    pub buffers: Option<(usize, usize)>,
    pub stats_mode: Option<StatsMode>,
    pub types: Option<Seq<Seq<char>>>,
    pub priority: Option<Seq<ContentCoding>>,
    pub gzip_conflict_expected: bool,
    pub gzip_runtime_warned: bool,
}

pub open spec fn in_range_u32(v: Option<u32>, min: u32, max: u32) -> bool {
    match v {
        Some(n) => min <= n <= max,
        None => true,
    }
}

/// The explicit value if present, else the preset's, else the built-in default.
pub open spec fn pick<T>(explicit: Option<T>, preset: Option<T>, default: T) -> T {
    match explicit {
        Some(v) => v,
        None => match preset {
            Some(v) => v,
            None => default,
        },
    }
}

pub open spec fn preset_field<T>(p: Option<Preset>, f: spec_fn(Preset) -> T) -> Option<T> {
    match p {
        Some(p) => Some(f(p)),
        None => None,
    }
}

pub open spec fn push_missing(s: Seq<ContentCoding>, c: ContentCoding) -> Seq<ContentCoding> {
    if s.contains(c) {
        s
    } else {
        s.push(c)
    }
}

/// The server order used to break equal client quality values: the
/// configured `compress_priority` codings first, then the remaining runtime
/// codings in default order.
pub open spec fn tie_break_order(configured: Option<Seq<ContentCoding>>) -> Seq<ContentCoding> {
    let first = match configured {
        Some(p) => p,
        None => Seq::empty(),
    };
    push_missing(
        push_missing(
            push_missing(push_missing(first, ContentCoding::Zstd), ContentCoding::Brotli),
            ContentCoding::Gzip,
        ),
        ContentCoding::Deflate,
    )
}

impl ConfigView {
    /// Every explicit value lies in its directive's documented range.
    pub open spec fn wf(self) -> bool {
        &&& in_range_u32(self.gzip_level, 1, 9)
        &&& in_range_u32(self.deflate_level, 1, 9)
        &&& in_range_u32(self.brotli_level, 0, 11)
        &&& in_range_u32(self.brotli_window, 10, 24)
        &&& match self.zstd_level {
            Some(n) => -7 <= n <= 22,
            None => true,
        }
        &&& match self.priority {
            Some(p) => priority_ok(p),
            None => true,
        }
    }

    /// The configuration with one directive setting stored.
    pub open spec fn with_setting(self, s: Setting) -> ConfigView {
        match s {
            Setting::Compress(enable, profile) => ConfigView {
                enable: Some(enable),
                profile: match profile {
                    Some(p) => Some(p),
                    None => self.profile,
                },
                ..self
            },
            Setting::Static(m) => ConfigView { static_mode: Some(m), ..self },
            Setting::Gzip(b) => ConfigView { gzip: Some(b), ..self },
            Setting::Deflate(b) => ConfigView { deflate: Some(b), ..self },
            Setting::Brotli(b) => ConfigView { brotli: Some(b), ..self },
            Setting::Zstd(b) => ConfigView { zstd: Some(b), ..self },
            Setting::Vary(b) => ConfigView { vary: Some(b), ..self },
            Setting::Stats(m) => ConfigView { stats_mode: Some(m), ..self },
            Setting::GzipLevel(n) => ConfigView { gzip_level: Some(n), ..self },
            Setting::DeflateLevel(n) => ConfigView { deflate_level: Some(n), ..self },
            Setting::BrotliLevel(n) => ConfigView { brotli_level: Some(n), ..self },
            Setting::BrotliWindow(n) => ConfigView { brotli_window: Some(n), ..self },
            Setting::ZstdLevel(n) => ConfigView { zstd_level: Some(n), ..self },
            Setting::MinLength(n) => ConfigView { min_length: Some(n), ..self },
        }
    }

    /// The configuration a single `name value` directive produces, or `None`
    /// when the name is unknown or the value invalid.
    pub open spec fn named_update(self, name: Seq<char>, value: Seq<char>) -> Option<ConfigView> {
        match directive_named(name) {
            Some(d) => match setting_for(d, value) {
                Some(s) => Some(self.with_setting(s)),
                None => None,
            },
            None => None,
        }
    }

    /// The configuration after one owned update, or `None` when it is refused.
    pub open spec fn updated(self, update: ConfigUpdate) -> Option<ConfigView> {
        match update {
            ConfigUpdate::Named { name, value } => self.named_update(name@, value@),
            ConfigUpdate::Buffers { count, size } => Some(
                ConfigView { buffers: Some((count, size)), ..self },
            ),
            ConfigUpdate::Types(values) => Some(
                ConfigView { types: Some(strings_view(values@)), ..self },
            ),
            ConfigUpdate::Priority(values) => match priority_named(strings_view(values@)) {
                Some(p) => Some(ConfigView { priority: Some(p), ..self }),
                None => None,
            },
        }
    }

    /// The child configuration after inheriting from `parent`: every unset
    /// value is taken from the parent; configuration-time conflict state stays
    /// the child's own.
    pub open spec fn inherit(self, parent: ConfigView) -> ConfigView {
        ConfigView {
            enable: if self.enable is Some { self.enable } else { parent.enable },
            profile: if self.profile is Some { self.profile } else { parent.profile },
            static_mode: if self.static_mode is Some { self.static_mode } else { parent.static_mode },
            gzip: if self.gzip is Some { self.gzip } else { parent.gzip },
            gzip_level: if self.gzip_level is Some { self.gzip_level } else { parent.gzip_level },
            deflate: if self.deflate is Some { self.deflate } else { parent.deflate },
            deflate_level: if self.deflate_level is Some { self.deflate_level } else { parent.deflate_level },
            brotli: if self.brotli is Some { self.brotli } else { parent.brotli },
            brotli_level: if self.brotli_level is Some { self.brotli_level } else { parent.brotli_level },
            brotli_window: if self.brotli_window is Some { self.brotli_window } else { parent.brotli_window },
            zstd: if self.zstd is Some { self.zstd } else { parent.zstd },
            zstd_level: if self.zstd_level is Some { self.zstd_level } else { parent.zstd_level },
            min_length: if self.min_length is Some { self.min_length } else { parent.min_length },
            vary: if self.vary is Some { self.vary } else { parent.vary },
            buffers: if self.buffers is Some { self.buffers } else { parent.buffers },
            stats_mode: if self.stats_mode is Some { self.stats_mode } else { parent.stats_mode },
            types: if self.types is Some { self.types } else { parent.types },
            priority: if self.priority is Some { self.priority } else { parent.priority },
            gzip_conflict_expected: self.gzip_conflict_expected,
            gzip_runtime_warned: self.gzip_runtime_warned,
        }
    }

    pub open spec fn preset(self) -> Option<Preset> {
        match self.profile {
            Some(p) => p.bundle(),
            None => None,
        }
    }

    pub open spec fn resolved_enabled(self) -> bool {
        pick(self.enable, None, false)
    }

    pub open spec fn resolved_min_length(self) -> usize {
        pick(self.min_length, preset_field(self.preset(), |p: Preset| p.min_length), DEFAULT_MIN_LENGTH)
    }

    pub open spec fn resolved_vary(self) -> bool {
        pick(self.vary, None, true)
    }

    pub open spec fn resolved_buffer_count(self) -> usize {
        match self.buffers {
            Some((count, _)) => count,
            None => DEFAULT_BUFFER_COUNT,
        }
    }

    pub open spec fn resolved_buffer_size(self) -> usize {
        match self.buffers {
            Some((_, size)) => size,
            None => DEFAULT_BUFFER_SIZE,
        }
    }

    pub open spec fn resolved_stats_mode(self) -> StatsMode {
        pick(self.stats_mode, None, StatsMode::Off)
    }

    pub open spec fn resolved_static_mode(self) -> StaticMode {
        pick(self.static_mode, None, StaticMode::Off)
    }

    pub open spec fn resolved_gzip(self) -> Option<u32> {
        if pick(self.gzip, preset_field(self.preset(), |p: Preset| p.gzip), false) {
            Some(pick(self.gzip_level, preset_field(self.preset(), |p: Preset| p.gzip_level), DEFAULT_GZIP_LEVEL))
        } else {
            None
        }
    }

    /// Deflate is never enabled by a preset; only its level comes from one.
    pub open spec fn resolved_deflate(self) -> Option<u32> {
        if pick(self.deflate, None, false) {
            Some(pick(self.deflate_level, preset_field(self.preset(), |p: Preset| p.deflate_level), DEFAULT_DEFLATE_LEVEL))
        } else {
            None
        }
    }

    pub open spec fn resolved_brotli(self) -> Option<(u32, u32)> {
        if pick(self.brotli, preset_field(self.preset(), |p: Preset| p.brotli), false) {
            Some(
                (
                    pick(self.brotli_level, preset_field(self.preset(), |p: Preset| p.brotli_level), DEFAULT_BROTLI_LEVEL),
                    pick(self.brotli_window, preset_field(self.preset(), |p: Preset| p.brotli_window), DEFAULT_BROTLI_WINDOW),
                ),
            )
        } else {
            None
        }
    }

    pub open spec fn resolved_zstd(self) -> Option<i32> {
        if pick(self.zstd, preset_field(self.preset(), |p: Preset| p.zstd), false) {
            Some(pick(self.zstd_level, preset_field(self.preset(), |p: Preset| p.zstd_level), DEFAULT_ZSTD_LEVEL))
        } else {
            None
        }
    }
}

/// A validated, Rust-owned configuration update produced at the FFI boundary.
pub enum ConfigUpdate {
    Named { name: String, value: String },
    Buffers { count: usize, size: usize },
    Types(Vec<String>),
    Priority(Vec<String>),
}

/// Rust-owned location configuration. `None` means inherit from the parent.
pub struct CompressConfig {
    enable: Option<bool>,
    profile: Option<Profile>,
    static_mode: Option<StaticMode>,
    gzip: Option<bool>,
    gzip_level: Option<u32>,
    deflate: Option<bool>,
    deflate_level: Option<u32>,
    brotli: Option<bool>,
    brotli_level: Option<u32>,
    brotli_window: Option<u32>,
    zstd: Option<bool>,
    zstd_level: Option<i32>,
    min_length: Option<usize>,
    vary: Option<bool>,
    buffers: Option<(usize, usize)>,
    stats_mode: Option<StatsMode>,
    types: Option<Vec<String>>,
    priority: Option<Vec<ContentCoding>>,
    gzip_conflict_expected: bool,
    gzip_runtime_warned: bool,
}

impl View for CompressConfig {
    type V = ConfigView;

    closed spec fn view(&self) -> ConfigView {
        ConfigView {
            enable: self.enable,
            profile: self.profile,
            static_mode: self.static_mode,
            gzip: self.gzip,
            gzip_level: self.gzip_level,
            deflate: self.deflate,
            deflate_level: self.deflate_level,
            brotli: self.brotli,
            brotli_level: self.brotli_level,
            brotli_window: self.brotli_window,
            zstd: self.zstd,
            zstd_level: self.zstd_level,
            min_length: self.min_length,
            vary: self.vary,
            buffers: self.buffers,
            stats_mode: self.stats_mode,
            types: match self.types {
                Some(v) => Some(strings_view(v@)),
                None => None,
            },
            priority: match self.priority {
                Some(p) => Some(p@),
                None => None,
            },
            gzip_conflict_expected: self.gzip_conflict_expected,
            gzip_runtime_warned: self.gzip_runtime_warned,
        }
    }
}

pub open spec fn empty_config() -> ConfigView {
    ConfigView {
        enable: None,
        profile: None,
        static_mode: None,
        gzip: None,
        gzip_level: None,
        deflate: None,
        deflate_level: None,
        brotli: None,
        brotli_level: None,
        brotli_window: None,
        zstd: None,
        zstd_level: None,
        min_length: None,
        vary: None,
        buffers: None,
        stats_mode: None,
        types: None,
        priority: None,
        gzip_conflict_expected: false,
        gzip_runtime_warned: false,
    }
}

impl Default for CompressConfig {
    fn default() -> (r: CompressConfig)
        ensures
            r@ == empty_config(),
            r@.wf(),
    {
        CompressConfig {
            enable: None,
            profile: None,
            static_mode: None,
            gzip: None,
            gzip_level: None,
            deflate: None,
            deflate_level: None,
            brotli: None,
            brotli_level: None,
            brotli_window: None,
            zstd: None,
            zstd_level: None,
            min_length: None,
            vary: None,
            buffers: None,
            stats_mode: None,
            types: None,
            priority: None,
            gzip_conflict_expected: false,
            gzip_runtime_warned: false,
        }
    }
}

// ---------------------------------------------------------------------------
// Directive value setters
// ---------------------------------------------------------------------------

/// Stores `on`/`off` in `slot`; any other value is refused and `slot` kept.
pub fn set_flag(slot: &mut Option<bool>, value: &str) -> (r: bool)
    ensures
        match flag_named(value@) {
            Some(b) => r && *final(slot) == Some(b),
            None => !r && *final(slot) == *old(slot),
        },
{
    if eq_ignore_ascii_case(value, "on") {
        *slot = Some(true);
        true
    } else if eq_ignore_ascii_case(value, "off") {
        *slot = Some(false);
        true
    } else {
        false
    }
}

/// Stores a `compress_static` mode in `slot`.
pub fn set_static(slot: &mut Option<StaticMode>, value: &str) -> (r: bool)
    ensures
        match static_named(value@) {
            Some(m) => r && *final(slot) == Some(m),
            None => !r && *final(slot) == *old(slot),
        },
{
    let mode = if eq_ignore_ascii_case(value, "off") {
        StaticMode::Off
    } else if eq_ignore_ascii_case(value, "on") {
        StaticMode::On
    } else if eq_ignore_ascii_case(value, "always") {
        StaticMode::Always
    } else {
        return false;
    };
    *slot = Some(mode);
    true
}

/// Stores a `compress_stats` mode in `slot`.
pub fn set_stats_mode(slot: &mut Option<StatsMode>, value: &str) -> (r: bool)
    ensures
        match stats_named(value@) {
            Some(m) => r && *final(slot) == Some(m),
            None => !r && *final(slot) == *old(slot),
        },
{
    let mode = if eq_ignore_ascii_case(value, "off") {
        StatsMode::Off
    } else if eq_ignore_ascii_case(value, "variables") {
        StatsMode::Variables
    } else if eq_ignore_ascii_case(value, "server_timing") {
        StatsMode::ServerTiming
    } else {
        return false;
    };
    *slot = Some(mode);
    true
}

/// Stores a `u32` level within `min..=max` in `slot`.
pub fn set_u32(slot: &mut Option<u32>, value: &str, min: u32, max: u32) -> (r: bool)
    ensures
        match level_named(value@, min, max) {
            Some(n) => r && *final(slot) == Some(n),
            None => !r && *final(slot) == *old(slot),
        },
{
    match parse_unsigned(value, 0xffff_ffff) {
        Some(parsed) => {
            if min as u64 <= parsed && parsed <= max as u64 {
                *slot = Some(parsed as u32);
                true
            } else {
                false
            }
        },
        None => false,
    }
}

fn window_bits(bytes: u64) -> (r: Option<u32>)
    ensures
        r == window_size_bits(bytes as nat),
{
    if bytes == 1024 {
        Some(10)
    } else if bytes == 2048 {
        Some(11)
    } else if bytes == 4096 {
        Some(12)
    } else if bytes == 8192 {
        Some(13)
    } else if bytes == 16384 {
        Some(14)
    } else if bytes == 32768 {
        Some(15)
    } else if bytes == 65536 {
        Some(16)
    } else if bytes == 131072 {
        Some(17)
    } else if bytes == 262144 {
        Some(18)
    } else if bytes == 524288 {
        Some(19)
    } else if bytes == 1048576 {
        Some(20)
    } else if bytes == 2097152 {
        Some(21)
    } else if bytes == 4194304 {
        Some(22)
    } else if bytes == 8388608 {
        Some(23)
    } else if bytes == 16777216 {
        Some(24)
    } else {
        None
    }
}

/// Stores a `compress_brotli_window` value, as window bits, in `slot`.
pub fn set_brotli_window(slot: &mut Option<u32>, value: &str) -> (r: bool)
    ensures
        match window_named(value@) {
            Some(n) => r && *final(slot) == Some(n),
            None => !r && *final(slot) == *old(slot),
        },
{
    let n = value.unicode_len();
    let bits = if n > 1 && (value.get_char(n - 1) == 'k' || value.get_char(n - 1) == 'K') {
        assert(value@.subrange(0, n - 1) =~= value@.drop_last());
        match parse_digit_range(value, 0, n - 1, 16384) {
            Some(kib) => window_bits(kib * 1024),
            None => None,
        }
    } else if n > 1 && (value.get_char(n - 1) == 'm' || value.get_char(n - 1) == 'M') {
        assert(value@.subrange(0, n - 1) =~= value@.drop_last());
        match parse_digit_range(value, 0, n - 1, 16) {
            Some(mib) => window_bits(mib * 1048576),
            None => None,
        }
    } else {
        match parse_unsigned(value, 16777216) {
            Some(v) => if 10 <= v && v <= 24 {
                Some(v as u32)
            } else {
                window_bits(v)
            },
            None => None,
        }
    };
    match bits {
        Some(b) => {
            *slot = Some(b);
            true
        },
        None => false,
    }
}

/// Stores a zstd level within `-7..=22` in `slot`.
pub fn set_zstd_level(slot: &mut Option<i32>, value: &str) -> (r: bool)
    ensures
        match zstd_level_named(value@) {
            Some(n) => r && *final(slot) == Some(n),
            None => !r && *final(slot) == *old(slot),
        },
{
    match crate::text::parse_i32(value) {
        Some(parsed) => {
            if -7 <= parsed && parsed <= 22 {
                *slot = Some(parsed);
                true
            } else {
                false
            }
        },
        None => false,
    }
}

/// Stores a `usize` in `slot`.
pub fn set_usize(slot: &mut Option<usize>, value: &str) -> (r: bool)
    ensures
        match size_named(value@) {
            Some(n) => r && *final(slot) == Some(n),
            None => !r && *final(slot) == *old(slot),
        },
{
    match parse_unsigned(value, usize::MAX as u64) {
        Some(parsed) => {
            *slot = Some(parsed as usize);
            true
        },
        None => false,
    }
}

/// Validates the `compress_buffers` arguments: the count text and the size as
/// NGINX's size parser returned it. Both must be positive.
pub fn parse_buffers(count: &str, size: isize) -> (r: Option<(usize, usize)>)
    ensures
        r == buffers_named(count@, size),
{
    match parse_unsigned(count, usize::MAX as u64) {
        Some(c) => if c > 0 && size > 0 {
            Some((c as usize, size as usize))
        } else {
            None
        },
        None => None,
    }
}

/// Stores `parent` in `child` when `child` is unset.
pub fn merge_opt<T: Copy>(child: &mut Option<T>, parent: Option<T>)
    ensures
        *final(child) == if old(child).is_some() {
            *old(child)
        } else {
            parent
        },
    no_unwind
{
    match child {
        Some(_) => {},
        None => *child = parent,
    }
}

fn copy_strings(values: &Vec<String>) -> (r: Vec<String>)
    ensures
        strings_view(r@) == strings_view(values@),
{
    let mut out: Vec<String> = Vec::new();
    let mut i: usize = 0;
    while i < values.len()
        invariant
            i <= values.len(),
            out@.len() == i,
            forall|k: int| 0 <= k < i ==> (#[trigger] out@[k])@ == values@[k]@,
        decreases values.len() - i,
    {
        out.push(values[i].clone());
        i = i + 1;
    }
    assert(strings_view(out@) =~= strings_view(values@));
    out
}

fn copy_codings(values: &Vec<ContentCoding>) -> (r: Vec<ContentCoding>)
    ensures
        r@ == values@,
{
    let mut out: Vec<ContentCoding> = Vec::new();
    let mut i: usize = 0;
    while i < values.len()
        invariant
            i <= values.len(),
            out@ == values@.take(i as int),
        decreases values.len() - i,
    {
        out.push(values[i]);
        i = i + 1;
        assert(out@ =~= values@.take(i as int));
    }
    assert(values@.take(values.len() as int) =~= values@);
    out
}

fn contains_coding(codings: &Vec<ContentCoding>, coding: ContentCoding) -> (r: bool)
    ensures
        r == codings@.contains(coding),
{
    let mut i: usize = 0;
    while i < codings.len()
        invariant
            i <= codings.len(),
            forall|k: int| 0 <= k < i ==> codings@[k] != coding,
        decreases codings.len() - i,
    {
        if codings[i] == coding {
            assert(codings@[i as int] == coding);
            return true;
        }
        i = i + 1;
    }
    false
}

/// The explicit value, else the preset's, else the default.
pub fn pick_value<T: Copy>(explicit: Option<T>, preset: Option<T>, default: T) -> (r: T)
    ensures
        r == pick(explicit, preset, default),
{
    match explicit {
        Some(v) => v,
        None => match preset {
            Some(v) => v,
            None => default,
        },
    }
}

/// `Some(level)` when the codec is on (explicitly or by preset), its level
/// falling back to `default`.
pub fn on_level(on: Option<bool>, level: Option<u32>, default: u32) -> (r: Option<u32>)
    ensures
        r == if pick(on, None, false) {
            Some(pick(level, None, default))
        } else {
            None
        },
{
    if pick_value(on, None, false) {
        Some(pick_value(level, None, default))
    } else {
        None
    }
}

fn or_opt<T: Copy>(first: Option<T>, second: Option<T>) -> (r: Option<T>)
    ensures
        r == if first is Some {
            first
        } else {
            second
        },
{
    match first {
        Some(v) => Some(v),
        None => second,
    }
}

/// The server tie-break order: the configured codings, then the remaining
/// runtime codings in default order.
pub fn tie_break(configured: &Option<Vec<ContentCoding>>) -> (r: Vec<ContentCoding>)
    ensures
        r@ == tie_break_order(
            match configured {
                Some(p) => Some(p@),
                None => None,
            },
        ),
{
    let mut order: Vec<ContentCoding> = match configured {
        Some(p) => copy_codings(p),
        None => Vec::new(),
    };
    let ghost first = order@;
    if !contains_coding(&order, ContentCoding::Zstd) {
        order.push(ContentCoding::Zstd);
    }
    let ghost s1 = order@;
    assert(s1 == push_missing(first, ContentCoding::Zstd));
    if !contains_coding(&order, ContentCoding::Brotli) {
        order.push(ContentCoding::Brotli);
    }
    let ghost s2 = order@;
    assert(s2 == push_missing(s1, ContentCoding::Brotli));
    if !contains_coding(&order, ContentCoding::Gzip) {
        order.push(ContentCoding::Gzip);
    }
    let ghost s3 = order@;
    assert(s3 == push_missing(s2, ContentCoding::Gzip));
    if !contains_coding(&order, ContentCoding::Deflate) {
        order.push(ContentCoding::Deflate);
    }
    order
}

/// Defaults-applied request-path configuration snapshot.
pub struct Resolved<'a> {
    pub enabled: bool,
    pub min_length: usize,
    pub vary: bool,
    pub buffer_size: usize,
    pub buffer_count: usize,
    pub stats_mode: StatsMode,
    pub static_mode: StaticMode,
    pub types: Option<&'a Vec<String>>,
    pub gzip: Option<u32>,
    pub deflate: Option<u32>,
    pub brotli: Option<(u32, u32)>,
    pub zstd: Option<i32>,
    pub priority: Vec<ContentCoding>,
}

impl CompressConfig {
    /// Every explicit level, window, and priority list lies in its range.
    #[verifier::type_invariant]
    closed spec fn inv(&self) -> bool {
        self@.wf()
    }

    /// Whether `compress` is effectively on.
    pub fn enabled(&self) -> (r: bool)
        ensures
            r == self@.resolved_enabled(),
    {
        pick_value(self.enable, None, false)
    }

    pub fn enable(&self) -> (r: Option<bool>)
        ensures
            r == self@.enable,
    {
        self.enable
    }

    pub fn profile(&self) -> (r: Option<Profile>)
        ensures
            r == self@.profile,
    {
        self.profile
    }

    pub fn priority(&self) -> (r: &Option<Vec<ContentCoding>>)
        ensures
            self@.priority == match *r {
                Some(p) => Some(p@),
                None => None,
            },
    {
        &self.priority
    }

    pub fn types(&self) -> (r: &Option<Vec<String>>)
        ensures
            self@.types == match *r {
                Some(v) => Some(strings_view(v@)),
                None => None,
            },
    {
        &self.types
    }

    pub fn gzip_conflict_expected(&self) -> (r: bool)
        ensures
            r == self@.gzip_conflict_expected,
    {
        self.gzip_conflict_expected
    }

    /// Records whether this location has a configuration-time conflict with
    /// the built-in gzip filter.
    pub fn set_gzip_conflict_expected(&mut self, conflict: bool)
        ensures
            final(self)@ == (ConfigView { gzip_conflict_expected: conflict, ..old(self)@ }),
    {
        proof {
            use_type_invariant(&*self);
        }
        self.gzip_conflict_expected = conflict;
    }

    /// Marks that the runtime-mismatch warning was emitted and returns whether
    /// it had been emitted before, so the warning appears once per location.
    pub fn mark_runtime_warned(&mut self) -> (r: bool)
        ensures
            r == old(self)@.gzip_runtime_warned,
            final(self)@ == (ConfigView { gzip_runtime_warned: true, ..old(self)@ }),
    {
        proof {
            use_type_invariant(&*self);
        }
        let previous = self.gzip_runtime_warned;
        self.gzip_runtime_warned = true;
        previous
    }

    /// Applies one `compress` argument.
    pub fn set_compress(&mut self, value: &str) -> (r: bool)
        ensures
            match old(self)@.named_update("compress"@, value@) {
                Some(v) => r && final(self)@ == v,
                None => !r && final(self)@ == old(self)@,
            },
    {
        proof {
            use_type_invariant(&*self);
        }
        if eq_ignore_ascii_case(value, "off") {
            self.enable = Some(false);
            true
        } else if eq_ignore_ascii_case(value, "on") {
            self.enable = Some(true);
            self.profile = Some(Profile::Custom);
            true
        } else if let Some(profile) = Profile::parse(value) {
            self.enable = Some(true);
            self.profile = Some(profile);
            true
        } else {
            false
        }
    }

    /// Applies one already-owned TAKE1 directive value.
    pub fn apply_named(&mut self, name: &str, value: &str) -> (r: bool)
        ensures
            match old(self)@.named_update(name@, value@) {
                Some(v) => r && final(self)@ == v,
                None => !r && final(self)@ == old(self)@,
            },
    {
        proof {
            use_type_invariant(&*self);
        }
        if str_eq(name, "compress") {
            self.set_compress(value)
        } else if str_eq(name, "compress_static") {
            let mut slot = self.static_mode;
            let accepted = set_static(&mut slot, value);
            self.static_mode = slot;
            accepted
        } else if str_eq(name, "compress_gzip") {
            let mut slot = self.gzip;
            let accepted = set_flag(&mut slot, value);
            self.gzip = slot;
            accepted
        } else if str_eq(name, "compress_deflate") {
            let mut slot = self.deflate;
            let accepted = set_flag(&mut slot, value);
            self.deflate = slot;
            accepted
        } else if str_eq(name, "compress_brotli") {
            let mut slot = self.brotli;
            let accepted = set_flag(&mut slot, value);
            self.brotli = slot;
            accepted
        } else if str_eq(name, "compress_zstd") {
            let mut slot = self.zstd;
            let accepted = set_flag(&mut slot, value);
            self.zstd = slot;
            accepted
        } else if str_eq(name, "compress_vary") {
            let mut slot = self.vary;
            let accepted = set_flag(&mut slot, value);
            self.vary = slot;
            accepted
        } else if str_eq(name, "compress_stats") {
            let mut slot = self.stats_mode;
            let accepted = set_stats_mode(&mut slot, value);
            self.stats_mode = slot;
            accepted
        } else if str_eq(name, "compress_gzip_comp_level") {
            let mut slot = self.gzip_level;
            let accepted = set_u32(&mut slot, value, 1, 9);
            self.gzip_level = slot;
            accepted
        } else if str_eq(name, "compress_deflate_comp_level") {
            let mut slot = self.deflate_level;
            let accepted = set_u32(&mut slot, value, 1, 9);
            self.deflate_level = slot;
            accepted
        } else if str_eq(name, "compress_brotli_comp_level") {
            let mut slot = self.brotli_level;
            let accepted = set_u32(&mut slot, value, 0, 11);
            self.brotli_level = slot;
            accepted
        } else if str_eq(name, "compress_brotli_window") {
            let mut slot = self.brotli_window;
            let accepted = set_brotli_window(&mut slot, value);
            self.brotli_window = slot;
            accepted
        } else if str_eq(name, "compress_zstd_comp_level") {
            let mut slot = self.zstd_level;
            let accepted = set_zstd_level(&mut slot, value);
            self.zstd_level = slot;
            accepted
        } else if str_eq(name, "compress_min_length") {
            let mut slot = self.min_length;
            let accepted = set_usize(&mut slot, value);
            self.min_length = slot;
            accepted
        } else {
            false
        }
    }

    /// Parses a `compress_priority` list; refused lists leave the
    /// configuration unchanged.
    pub fn set_priority(&mut self, values: Vec<String>) -> (r: bool)
        ensures
            match priority_named(strings_view(values@)) {
                Some(p) => r && final(self)@ == (ConfigView { priority: Some(p), ..old(self)@ }),
                None => !r && final(self)@ == old(self)@,
            },
    {
        proof {
            use_type_invariant(&*self);
        }
        let ghost names = strings_view(values@);
        let mut parsed: Vec<ContentCoding> = Vec::new();
        let mut i: usize = 0;
        while i < values.len()
            invariant
                names == strings_view(values@),
                i <= values.len(),
                parsed@.len() == i,
                forall|k: int| 0 <= k < i ==> (#[trigger] runtime_coding_named(names[k])) is Some,
                forall|k: int| 0 <= k < i ==> #[trigger] parsed@[k] == runtime_coding_named(names[k])->0,
                forall|k: int, l: int| 0 <= k < l < i ==> parsed@[k] != parsed@[l],
            decreases values.len() - i,
        {
            assert(names[i as int] == values@[i as int]@);
            let coding = match parse_runtime_coding(values[i].as_str()) {
                Some(c) => c,
                None => {
                    assert(runtime_coding_named(names[i as int]) is None);
                    assert(priority_named(names) is None);
                    return false;
                },
            };
            if contains_coding(&parsed, coding) {
                proof {
                    let k = choose|k: int| 0 <= k < parsed@.len() && parsed@[k] == coding;
                    assert(runtime_coding_named(names[k])->0 == runtime_coding_named(names[i as int])->0);
                    assert(priority_named(names) is None);
                }
                return false;
            }
            parsed.push(coding);
            i = i + 1;
        }
        if parsed.len() == 0 || parsed.len() > 4 {
            assert(priority_named(names) is None);
            return false;
        }
        assert(parsed@ =~= Seq::new(names.len(), |k: int| runtime_coding_named(names[k])->0));
        assert forall|k: int, l: int| 0 <= k < l < names.len() implies runtime_coding_named(
            names[k],
        )->0 != runtime_coding_named(names[l])->0 by {
            assert(parsed@[k] == runtime_coding_named(names[k])->0);
            assert(parsed@[l] == runtime_coding_named(names[l])->0);
        }
        assert(priority_named(names) == Some(parsed@));
        self.priority = Some(parsed);
        true
    }

    /// Applies one validated, Rust-owned update from the configuration boundary.
    pub fn apply(&mut self, update: ConfigUpdate) -> (r: bool)
        ensures
            match old(self)@.updated(update) {
                Some(v) => r && final(self)@ == v,
                None => !r && final(self)@ == old(self)@,
            },
            final(self)@.wf(),
    {
        proof {
            use_type_invariant(&*self);
        }
        match update {
            ConfigUpdate::Named { name, value } => self.apply_named(name.as_str(), value.as_str()),
            ConfigUpdate::Buffers { count, size } => {
                self.buffers = Some((count, size));
                true
            },
            ConfigUpdate::Types(values) => {
                self.types = Some(values);
                true
            },
            ConfigUpdate::Priority(values) => self.set_priority(values),
        }
    }

    /// Inherits every unset value from the enclosing (`prev`) configuration.
    #[verifier::rlimit(100)]
    pub fn merge(&mut self, prev: &CompressConfig)
        ensures
            final(self)@ == old(self)@.inherit(prev@),
            final(self)@.wf(),
    {
        proof {
            use_type_invariant(&*self);
            use_type_invariant(prev);
        }
        merge_opt(&mut self.enable, prev.enable);
        merge_opt(&mut self.profile, prev.profile);
        merge_opt(&mut self.static_mode, prev.static_mode);
        merge_opt(&mut self.gzip, prev.gzip);
        merge_opt(&mut self.gzip_level, prev.gzip_level);
        merge_opt(&mut self.deflate, prev.deflate);
        merge_opt(&mut self.deflate_level, prev.deflate_level);
        merge_opt(&mut self.brotli, prev.brotli);
        merge_opt(&mut self.brotli_level, prev.brotli_level);
        merge_opt(&mut self.brotli_window, prev.brotli_window);
        merge_opt(&mut self.zstd, prev.zstd);
        merge_opt(&mut self.zstd_level, prev.zstd_level);
        merge_opt(&mut self.min_length, prev.min_length);
        merge_opt(&mut self.vary, prev.vary);
        merge_opt(&mut self.buffers, prev.buffers);
        merge_opt(&mut self.stats_mode, prev.stats_mode);
        if self.types.is_none() {
            self.types = match &prev.types {
                Some(v) => Some(copy_strings(v)),
                None => None,
            };
        }
        if self.priority.is_none() {
            self.priority = match &prev.priority {
                Some(p) => Some(copy_codings(p)),
                None => None,
            };
        }
    }

    /// The defaults-applied snapshot used on the request path.
    pub fn resolve(&self) -> (r: Resolved<'_>)
        ensures
            r.enabled == self@.resolved_enabled(),
            r.min_length == self@.resolved_min_length(),
            r.vary == self@.resolved_vary(),
            r.buffer_size == self@.resolved_buffer_size(),
            r.buffer_count == self@.resolved_buffer_count(),
            r.stats_mode == self@.resolved_stats_mode(),
            r.static_mode == self@.resolved_static_mode(),
            self@.types == match r.types {
                Some(v) => Some(strings_view(v@)),
                None => None,
            },
            r.gzip == self@.resolved_gzip(),
            r.deflate == self@.resolved_deflate(),
            r.brotli == self@.resolved_brotli(),
            r.zstd == self@.resolved_zstd(),
            r.priority@ == tie_break_order(self@.priority),
            self@.wf(),
            r.gzip matches Some(l) ==> 1 <= l <= 9,
            r.deflate matches Some(l) ==> 1 <= l <= 9,
            r.brotli matches Some((q, w)) ==> q <= 11 && 10 <= w <= 24,
            r.zstd matches Some(l) ==> -7 <= l <= 22,
    {
        proof {
            use_type_invariant(self);
            lemma_resolved_levels_in_range(self@);
        }
        let preset = match self.profile {
            Some(p) => p.preset(),
            None => None,
        };
        let (p_gzip, p_brotli, p_zstd, p_gzip_level, p_deflate_level, p_brotli_level, p_window, p_zstd_level, p_min) =
            match preset {
            Some(p) => (
                Some(p.gzip),
                Some(p.brotli),
                Some(p.zstd),
                Some(p.gzip_level),
                Some(p.deflate_level),
                Some(p.brotli_level),
                Some(p.brotli_window),
                Some(p.zstd_level),
                Some(p.min_length),
            ),
            None => (None, None, None, None, None, None, None, None, None),
        };
        let brotli = if pick_value(self.brotli, p_brotli, false) {
            Some(
                (
                    pick_value(self.brotli_level, p_brotli_level, DEFAULT_BROTLI_LEVEL),
                    pick_value(self.brotli_window, p_window, DEFAULT_BROTLI_WINDOW),
                ),
            )
        } else {
            None
        };
        let zstd = if pick_value(self.zstd, p_zstd, false) {
            Some(pick_value(self.zstd_level, p_zstd_level, DEFAULT_ZSTD_LEVEL))
        } else {
            None
        };
        let (buffer_count, buffer_size) = match self.buffers {
            Some((count, size)) => (count, size),
            None => (DEFAULT_BUFFER_COUNT, DEFAULT_BUFFER_SIZE),
        };
        Resolved {
            enabled: pick_value(self.enable, None, false),
            min_length: pick_value(self.min_length, p_min, DEFAULT_MIN_LENGTH),
            vary: pick_value(self.vary, None, true),
            buffer_size,
            buffer_count,
            stats_mode: pick_value(self.stats_mode, None, StatsMode::Off),
            static_mode: pick_value(self.static_mode, None, StaticMode::Off),
            types: match &self.types {
                Some(v) => Some(v),
                None => None,
            },
            gzip: on_level(
                or_opt(self.gzip, p_gzip),
                or_opt(self.gzip_level, p_gzip_level),
                DEFAULT_GZIP_LEVEL,
            ),
            deflate: on_level(
                self.deflate,
                or_opt(self.deflate_level, p_deflate_level),
                DEFAULT_DEFLATE_LEVEL,
            ),
            brotli,
            zstd,
            priority: tie_break(&self.priority),
        }
    }
}

// ---------------------------------------------------------------------------
// Laws
// ---------------------------------------------------------------------------

/// Directive order does not matter: two accepted directives with different
/// names give the same configuration in either order.
pub proof fn lemma_distinct_directives_commute(
    c: ConfigView,
    n1: Seq<char>,
    v1: Seq<char>,
    n2: Seq<char>,
    v2: Seq<char>,
)
    requires
        n1 != n2,
        c.named_update(n1, v1) is Some,
        c.named_update(n2, v2) is Some,
    ensures
        c.named_update(n1, v1)->0.named_update(n2, v2) is Some,
        c.named_update(n2, v2)->0.named_update(n1, v1) is Some,
        c.named_update(n1, v1)->0.named_update(n2, v2) == c.named_update(n2, v2)->0.named_update(
            n1,
            v1,
        ),
{
    let d1 = directive_named(n1)->0;
    let d2 = directive_named(n2)->0;
    let s1 = setting_for(d1, v1)->0;
    let s2 = setting_for(d2, v2)->0;
    if d1 == d2 {
        lemma_directive_name_unique(n1, n2);
    }
    lemma_setting_directive(d1, v1);
    lemma_setting_directive(d2, v2);
    lemma_settings_commute(c, s1, s2);
}

/// Each directive has exactly one name.
pub proof fn lemma_directive_name_unique(n1: Seq<char>, n2: Seq<char>)
    requires
        directive_named(n1) is Some,
        directive_named(n1) == directive_named(n2),
    ensures
        n1 == n2,
{
}

/// A directive's value stores a setting of that same directive.
pub proof fn lemma_setting_directive(d: Directive, value: Seq<char>)
    ensures
        setting_for(d, value) matches Some(s) ==> s.directive() == d,
{
}

/// Settings of different directives touch different fields, so they commute.
pub proof fn lemma_settings_commute(c: ConfigView, s1: Setting, s2: Setting)
    requires
        s1.directive() != s2.directive(),
    ensures
        c.with_setting(s1).with_setting(s2) == c.with_setting(s2).with_setting(s1),
{
}

/// Each `compress_static` keyword selects its own mode, ASCII case ignored:
/// a value gives `On` exactly when it spells `on`, `Always` exactly when it
/// spells `always`, `Off` exactly when it spells `off`, and nothing else is
/// accepted.
pub proof fn lemma_static_keywords(value: Seq<char>)
    ensures
        static_named(value) == Some(StaticMode::Off) <==> ascii_eq_ignore_case(value, "off"@),
        static_named(value) == Some(StaticMode::On) <==> ascii_eq_ignore_case(value, "on"@),
        static_named(value) == Some(StaticMode::Always) <==> ascii_eq_ignore_case(value, "always"@),
        static_named(value) is None <==> !ascii_eq_ignore_case(value, "off"@) && !ascii_eq_ignore_case(
            value,
            "on"@,
        ) && !ascii_eq_ignore_case(value, "always"@),
{
    reveal_strlit("off");
    reveal_strlit("on");
    reveal_strlit("always");
    if ascii_eq_ignore_case(value, "off"@) {
        assert(!ascii_eq_ignore_case(value, "on"@));
        assert(!ascii_eq_ignore_case(value, "always"@));
    }
    if ascii_eq_ignore_case(value, "on"@) {
        assert(!ascii_eq_ignore_case(value, "always"@));
    }
}

/// Every accepted update keeps all explicit levels, windows, and the
/// priority list within their documented ranges.
pub proof fn lemma_update_keeps_ranges(c: ConfigView, update: ConfigUpdate)
    requires
        c.wf(),
        c.updated(update) is Some,
    ensures
        c.updated(update)->0.wf(),
{
    match update {
        ConfigUpdate::Priority(values) => {
            let names = strings_view(values@);
            let p = priority_named(names)->0;
            assert forall|i: int| 0 <= i < p.len() implies (#[trigger] p[i]).is_runtime() by {
                assert(runtime_coding_named(names[i]) is Some);
            }
        },
        ConfigUpdate::Named { name, value } => {
            lemma_setting_in_range(c, directive_named(name@)->0, value@);
        },
        _ => {},
    }
}

/// A Brotli window value always names window bits in `10..=24`.
pub proof fn lemma_window_in_range(value: Seq<char>)
    ensures
        window_named(value) matches Some(b) ==> 10 <= b <= 24,
{
    if value.len() > 1 && (value.last() == 'k' || value.last() == 'K') {
        if let Some(n) = digits_text_value(value.drop_last()) {
            lemma_window_size_bits_in_range(n * 1024);
        }
    } else if value.len() > 1 && (value.last() == 'm' || value.last() == 'M') {
        if let Some(n) = digits_text_value(value.drop_last()) {
            lemma_window_size_bits_in_range(n * 1048576);
        }
    } else if let Some(n) = unsigned_text_value(value) {
        lemma_window_size_bits_in_range(n);
    }
}

/// A window size in bytes names window bits in `10..=24`.
pub proof fn lemma_window_size_bits_in_range(bytes: nat)
    ensures
        window_size_bits(bytes) matches Some(b) ==> 10 <= b <= 24,
{
}

/// Every value a directive accepts lies in that directive's range, so
/// storing it keeps a well-formed configuration well-formed.
pub proof fn lemma_setting_in_range(c: ConfigView, d: Directive, value: Seq<char>)
    requires
        c.wf(),
    ensures
        setting_for(d, value) matches Some(s) ==> c.with_setting(s).wf(),
{
    lemma_window_in_range(value);
}

/// Merging keeps every value the child location sets explicitly (a child's
/// `compress off` stays off under a parent's `compress on`) and takes the
/// parent's value exactly where the child sets none. Configuration-time
/// conflict state is never inherited.
pub proof fn lemma_inherit_keeps_explicit(child: ConfigView, parent: ConfigView)
    ensures
        child.enable is Some ==> child.inherit(parent).enable == child.enable,
        child.enable is None ==> child.inherit(parent).enable == parent.enable,
        child.profile is Some ==> child.inherit(parent).profile == child.profile,
        child.profile is None ==> child.inherit(parent).profile == parent.profile,
        child.static_mode is Some ==> child.inherit(parent).static_mode == child.static_mode,
        child.static_mode is None ==> child.inherit(parent).static_mode == parent.static_mode,
        child.gzip is Some ==> child.inherit(parent).gzip == child.gzip,
        child.gzip is None ==> child.inherit(parent).gzip == parent.gzip,
        child.gzip_level is Some ==> child.inherit(parent).gzip_level == child.gzip_level,
        child.gzip_level is None ==> child.inherit(parent).gzip_level == parent.gzip_level,
        child.deflate is Some ==> child.inherit(parent).deflate == child.deflate,
        child.deflate is None ==> child.inherit(parent).deflate == parent.deflate,
        child.deflate_level is Some ==> child.inherit(parent).deflate_level == child.deflate_level,
        child.deflate_level is None ==> child.inherit(parent).deflate_level == parent.deflate_level,
        child.brotli is Some ==> child.inherit(parent).brotli == child.brotli,
        child.brotli is None ==> child.inherit(parent).brotli == parent.brotli,
        child.brotli_level is Some ==> child.inherit(parent).brotli_level == child.brotli_level,
        child.brotli_level is None ==> child.inherit(parent).brotli_level == parent.brotli_level,
        child.brotli_window is Some ==> child.inherit(parent).brotli_window == child.brotli_window,
        child.brotli_window is None ==> child.inherit(parent).brotli_window == parent.brotli_window,
        child.zstd is Some ==> child.inherit(parent).zstd == child.zstd,
        child.zstd is None ==> child.inherit(parent).zstd == parent.zstd,
        child.zstd_level is Some ==> child.inherit(parent).zstd_level == child.zstd_level,
        child.zstd_level is None ==> child.inherit(parent).zstd_level == parent.zstd_level,
        child.min_length is Some ==> child.inherit(parent).min_length == child.min_length,
        child.min_length is None ==> child.inherit(parent).min_length == parent.min_length,
        child.vary is Some ==> child.inherit(parent).vary == child.vary,
        child.vary is None ==> child.inherit(parent).vary == parent.vary,
        child.buffers is Some ==> child.inherit(parent).buffers == child.buffers,
        child.buffers is None ==> child.inherit(parent).buffers == parent.buffers,
        child.stats_mode is Some ==> child.inherit(parent).stats_mode == child.stats_mode,
        child.stats_mode is None ==> child.inherit(parent).stats_mode == parent.stats_mode,
        child.types is Some ==> child.inherit(parent).types == child.types,
        child.types is None ==> child.inherit(parent).types == parent.types,
        child.priority is Some ==> child.inherit(parent).priority == child.priority,
        child.priority is None ==> child.inherit(parent).priority == parent.priority,
        child.inherit(parent).gzip_conflict_expected == child.gzip_conflict_expected,
        child.inherit(parent).gzip_runtime_warned == child.gzip_runtime_warned,
{
}

/// Inheriting from a well-formed parent keeps the child well-formed.
pub proof fn lemma_inherit_keeps_ranges(child: ConfigView, parent: ConfigView)
    requires
        child.wf(),
        parent.wf(),
    ensures
        child.inherit(parent).wf(),
{
}

/// Inheriting twice from the same parent changes nothing the second time.
pub proof fn lemma_inherit_idempotent(child: ConfigView, parent: ConfigView)
    ensures
        child.inherit(parent).inherit(parent) == child.inherit(parent),
{
}

/// A location that sets nothing behaves exactly like its parent; a parent
/// that sets nothing leaves the child as it is.
pub proof fn lemma_inherit_empty(c: ConfigView)
    ensures
        empty_config().inherit(c) == (ConfigView {
            gzip_conflict_expected: false,
            gzip_runtime_warned: false,
            ..c
        }),
        c.inherit(empty_config()) == c,
{
}

/// A well-formed configuration resolves to codec parameters inside each
/// codec's accepted range, whichever of explicit value, preset, or default
/// supplies them.
pub proof fn lemma_resolved_levels_in_range(c: ConfigView)
    requires
        c.wf(),
    ensures
        c.resolved_gzip() matches Some(l) ==> 1 <= l <= 9,
        c.resolved_deflate() matches Some(l) ==> 1 <= l <= 9,
        c.resolved_brotli() matches Some((q, w)) ==> 0 <= q <= 11 && 10 <= w <= 24,
        c.resolved_zstd() matches Some(l) ==> -7 <= l <= 22,
{
}

/// `compress off` turns runtime compression off whatever profile was chosen,
/// and leaves the chosen profile in place.
pub proof fn lemma_compress_off_disables(c: ConfigView)
    ensures
        c.named_update("compress"@, "off"@) matches Some(v) && !v.resolved_enabled()
            && v.profile == c.profile,
{
    assert(ascii_eq_ignore_case("off"@, "off"@));
}

/// Precedence is explicit directive > profile preset > built-in default: an
/// explicit switch or value always wins, a preset fills only what is not set
/// explicitly, and deflate is never switched on by a preset.
pub proof fn lemma_explicit_beats_preset(c: ConfigView)
    ensures
        c.gzip matches Some(on) ==> (c.resolved_gzip() is Some <==> on),
        c.brotli matches Some(on) ==> (c.resolved_brotli() is Some <==> on),
        c.zstd matches Some(on) ==> (c.resolved_zstd() is Some <==> on),
        c.resolved_deflate() is Some <==> c.deflate == Some(true),
        c.gzip_level matches Some(l) ==> (c.resolved_gzip() is Some ==> c.resolved_gzip() == Some(l)),
        c.deflate_level matches Some(l) ==> (c.resolved_deflate() is Some ==> c.resolved_deflate()
            == Some(l)),
        c.zstd_level matches Some(l) ==> (c.resolved_zstd() is Some ==> c.resolved_zstd() == Some(l)),
        c.brotli_level matches Some(q) ==> (c.resolved_brotli() matches Some((rq, _)) ==> rq == q),
        c.brotli_window matches Some(w) ==> (c.resolved_brotli() matches Some((_, rw)) ==> rw == w),
        c.min_length matches Some(n) ==> c.resolved_min_length() == n,
        c.preset() matches Some(p) ==> {
            &&& c.gzip is None ==> (c.resolved_gzip() is Some <==> p.gzip)
            &&& c.brotli is None ==> (c.resolved_brotli() is Some <==> p.brotli)
            &&& c.zstd is None ==> (c.resolved_zstd() is Some <==> p.zstd)
            &&& c.gzip_level is None && c.resolved_gzip() is Some ==> c.resolved_gzip() == Some(
                p.gzip_level,
            )
            &&& c.zstd_level is None && c.resolved_zstd() is Some ==> c.resolved_zstd() == Some(
                p.zstd_level,
            )
            &&& c.min_length is None ==> c.resolved_min_length() == p.min_length
        },
        c.preset() is None ==> {
            &&& c.gzip is None ==> c.resolved_gzip() is None
            &&& c.brotli is None ==> c.resolved_brotli() is None
            &&& c.zstd is None ==> c.resolved_zstd() is None
            &&& c.min_length is None ==> c.resolved_min_length() == DEFAULT_MIN_LENGTH
        },
{
}

} // verus!
