use ngx_compress_module::coding::ContentCoding;
use ngx_compress_module::pool::{CodecKey, CodecPool, MAX_IDLE, Provision, Resettable};

#[derive(Debug, PartialEq, Eq)]
enum CodecError {
    Backend,
}

struct Identity;

impl Resettable for Identity {
    type Error = CodecError;

    fn reset(&mut self) -> Result<(), CodecError> {
        Ok(())
    }
}

struct ResetFails;

impl Resettable for ResetFails {
    type Error = CodecError;

    fn reset(&mut self) -> Result<(), CodecError> {
        Err(CodecError::Backend)
    }
}

enum TestCodec {
    Works(Identity),
    Fails(ResetFails),
}

impl Resettable for TestCodec {
    type Error = CodecError;

    fn reset(&mut self) -> Result<(), CodecError> {
        match self {
            TestCodec::Works(codec) => codec.reset(),
            TestCodec::Fails(codec) => codec.reset(),
        }
    }
}

fn identity_key() -> CodecKey {
    CodecKey::new(ContentCoding::Identity, 0, 0)
}

#[test]
fn acquires_a_codec_after_a_successful_reset() {
    let mut pool = CodecPool::new();
    let key = identity_key();
    pool.release(key, TestCodec::Works(Identity));

    assert!(matches!(pool.acquire(key), Ok(Some(_))));
}

#[test]
fn discards_a_codec_when_reset_fails() {
    let mut pool = CodecPool::new();
    let key = identity_key();
    pool.release(key, TestCodec::Fails(ResetFails));

    assert_eq!(pool.acquire(key).err(), Some(CodecError::Backend));
    assert_eq!(pool.len(), 0);
}

#[test]
fn acquire_without_a_matching_key_leaves_the_pool() {
    let mut pool = CodecPool::new();
    pool.release(CodecKey::new(ContentCoding::Gzip, 6, 0), TestCodec::Works(Identity));
    assert!(matches!(pool.acquire(CodecKey::new(ContentCoding::Gzip, 5, 0)), Ok(None)));
    assert!(matches!(pool.acquire(CodecKey::new(ContentCoding::Brotli, 6, 22)), Ok(None)));
    assert_eq!(pool.len(), 1);
    assert!(matches!(pool.acquire(CodecKey::new(ContentCoding::Gzip, 6, 0)), Ok(Some(_))));
    assert_eq!(pool.len(), 0);
}

#[test]
fn release_keeps_at_most_max_idle_codecs() {
    let mut pool = CodecPool::new();
    for level in 0..(MAX_IDLE as i32 + 3) {
        pool.release(CodecKey::new(ContentCoding::Zstd, level, 0), TestCodec::Works(Identity));
    }
    assert_eq!(pool.len(), MAX_IDLE);
    assert!(matches!(pool.acquire(CodecKey::new(ContentCoding::Zstd, MAX_IDLE as i32, 0)), Ok(None)));
}

#[test]
fn provide_reports_reuse_fresh_and_recovered_reset() {
    let mut pool = CodecPool::new();
    let key = CodecKey::new(ContentCoding::Brotli, 5, 22);
    assert!(matches!(pool.provide(key), Provision::Fresh { reset_recovered: false }));
    pool.release(key, TestCodec::Works(Identity));
    assert!(matches!(pool.provide(key), Provision::Reused(_)));
    pool.release(key, TestCodec::Fails(ResetFails));
    assert!(matches!(pool.provide(key), Provision::Fresh { reset_recovered: true }));
    assert_eq!(pool.len(), 0);
}

#[test]
fn a_failed_reset_is_not_retried_from_the_pool() {
    let mut pool = CodecPool::new();
    let key = identity_key();
    pool.release(key, TestCodec::Fails(ResetFails));
    assert_eq!(pool.acquire(key).err(), Some(CodecError::Backend));
    assert!(matches!(pool.acquire(key), Ok(None)));
}
