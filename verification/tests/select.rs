use ngx_compress_module::coding::ContentCoding;
use ngx_compress_module::config::{CompressConfig, ConfigUpdate};
use ngx_compress_module::pool::{CodecKey, CodecPool, Provision, Resettable};
use ngx_compress_module::select::{
    CodecSelectionFailure, CompiledCodecs, Qualities, available, choose_coding, codec_key, decide,
    level_i32,
};

struct Codec;

impl Resettable for Codec {
    type Error = ();

    fn reset(&mut self) -> Result<(), ()> {
        Ok(())
    }
}

const ALL: CompiledCodecs = CompiledCodecs {
    gzip: true,
    deflate: true,
    brotli: true,
    zstd: true,
};

fn config(directives: &[(&str, &str)]) -> CompressConfig {
    let mut config = CompressConfig::default();
    for (name, value) in directives {
        assert!(config.apply(ConfigUpdate::Named {
            name: (*name).to_owned(),
            value: (*value).to_owned(),
        }));
    }
    config
}

fn q(gzip: u16, deflate: u16, brotli: u16, zstd: u16) -> Qualities {
    Qualities {
        gzip,
        deflate,
        brotli,
        zstd,
    }
}

#[test]
fn highest_quality_wins_and_ties_follow_default_order() {
    let config = config(&[("compress", "balanced"), ("compress_deflate", "on")]);
    let resolved = config.resolve();
    assert_eq!(choose_coding(&resolved, &ALL, &q(1000, 1000, 1000, 1000)), Some(ContentCoding::Zstd));
    assert_eq!(choose_coding(&resolved, &ALL, &q(1000, 0, 500, 900)), Some(ContentCoding::Gzip));
    assert_eq!(choose_coding(&resolved, &ALL, &q(800, 900, 800, 0)), Some(ContentCoding::Deflate));
    assert_eq!(choose_coding(&resolved, &ALL, &q(0, 0, 0, 0)), None);
}

#[test]
fn configured_priority_breaks_ties_only() {
    let mut config = config(&[("compress", "balanced")]);
    assert!(config.apply(ConfigUpdate::Priority(vec!["gzip".into(), "br".into()])));
    let resolved = config.resolve();
    assert_eq!(choose_coding(&resolved, &ALL, &q(1000, 0, 1000, 1000)), Some(ContentCoding::Gzip));
    assert_eq!(choose_coding(&resolved, &ALL, &q(500, 0, 1000, 1000)), Some(ContentCoding::Brotli));
    assert_eq!(choose_coding(&resolved, &ALL, &q(500, 0, 700, 1000)), Some(ContentCoding::Zstd));
}

#[test]
fn unavailable_codings_are_never_chosen() {
    let config = config(&[("compress", "on"), ("compress_gzip", "on")]);
    let resolved = config.resolve();
    assert!(available(&resolved, &ALL, ContentCoding::Gzip));
    assert!(!available(&resolved, &ALL, ContentCoding::Zstd));
    assert!(!available(&resolved, &ALL, ContentCoding::Identity));
    assert_eq!(choose_coding(&resolved, &ALL, &q(100, 1000, 1000, 1000)), Some(ContentCoding::Gzip));
    let no_gzip = CompiledCodecs { gzip: false, ..ALL };
    assert_eq!(choose_coding(&resolved, &no_gzip, &q(100, 1000, 1000, 1000)), None);
}

#[test]
fn pool_keys_carry_level_and_brotli_window() {
    let config = config(&[("compress", "fast"), ("compress_zstd_comp_level", "-3")]);
    let resolved = config.resolve();
    assert_eq!(level_i32(&resolved, ContentCoding::Gzip), Some(4));
    assert_eq!(level_i32(&resolved, ContentCoding::Deflate), None);
    assert_eq!(level_i32(&resolved, ContentCoding::Identity), None);
    assert_eq!(codec_key(&resolved, ContentCoding::Brotli), Some(CodecKey::new(ContentCoding::Brotli, 4, 18)));
    assert_eq!(codec_key(&resolved, ContentCoding::Zstd), Some(CodecKey::new(ContentCoding::Zstd, -3, 0)));
    assert_eq!(codec_key(&resolved, ContentCoding::Gzip), Some(CodecKey::new(ContentCoding::Gzip, 4, 0)));
}

#[test]
fn decide_builds_a_plan_and_reuses_pooled_codecs() {
    let mut config = config(&[("compress", "balanced"), ("compress_vary", "off")]);
    assert!(config.apply(ConfigUpdate::Buffers { count: 3, size: 1024 }));
    let resolved = config.resolve();
    let mut pool: CodecPool<Codec> = CodecPool::new();

    assert!(matches!(decide(&mut pool, &resolved, &ALL, &q(1000, 0, 0, 0), false), Ok(None)));
    assert!(matches!(decide(&mut pool, &resolved, &ALL, &q(0, 0, 0, 0), true), Ok(None)));

    let plan = match decide(&mut pool, &resolved, &ALL, &q(1000, 0, 900, 0), true) {
        Ok(Some(plan)) => plan,
        _ => panic!("expected a plan"),
    };
    assert_eq!(plan.coding, ContentCoding::Gzip);
    assert_eq!(plan.key, CodecKey::new(ContentCoding::Gzip, 6, 0));
    assert!(!plan.vary);
    assert_eq!(plan.buffer_count, 3);
    assert_eq!(plan.buffer_size, 1024);
    assert!(matches!(plan.provision, Provision::Fresh { reset_recovered: false }));

    pool.release(plan.key, Codec);
    let plan = match decide(&mut pool, &resolved, &ALL, &q(1000, 0, 900, 0), true) {
        Ok(Some(plan)) => plan,
        _ => panic!("expected a plan"),
    };
    assert!(matches!(plan.provision, Provision::Reused(_)));
    assert_eq!(pool.len(), 0);
    let _ = CodecSelectionFailure::NotAcceptable;
}

#[test]
fn a_best_coding_without_a_pool_key_fails_initialization() {
    let config = config(&[("compress", "balanced")]);
    let mut resolved = config.resolve();
    resolved.gzip = Some(u32::MAX);
    let mut pool: CodecPool<Codec> = CodecPool::new();
    assert!(matches!(
        decide(&mut pool, &resolved, &ALL, &q(1000, 0, 900, 0), true),
        Err(CodecSelectionFailure::Initialization)
    ));
    assert!(matches!(decide(&mut pool, &resolved, &ALL, &q(1000, 0, 900, 0), false), Ok(None)));
    // Another best coding with a valid key is still selected.
    assert!(matches!(
        decide(&mut pool, &resolved, &ALL, &q(900, 0, 1000, 0), true),
        Ok(Some(plan)) if plan.coding == ContentCoding::Brotli
    ));
    assert_eq!(pool.len(), 0);
}
