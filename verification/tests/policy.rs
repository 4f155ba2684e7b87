use ngx_compress_module::coding::{ContentCoding, StaticMode, parse_runtime_coding};
use ngx_compress_module::config::{CompressConfig, ConfigUpdate};
use ngx_compress_module::fault::{Point, injection_step, point_named, take};
use ngx_compress_module::gzip::{
    DisabledReason, GzipRequestCheck, disabled_for_request, disabled_reason, first_inspection,
    record_config_conflict,
};
use ngx_compress_module::observability::{Callback, FailureClass};
use ngx_compress_module::profile::Profile;
use ngx_compress_module::static_file::{
    HTTP_GET, HTTP_HEAD, header_completes_response, method_supported, sidecar_enabled,
    sidecar_path_len,
};
use ngx_compress_module::text::{
    bytes_eq_ignore_ascii_case, eq_ignore_ascii_case, parse_i32, parse_unsigned, str_eq,
};
use ngx_compress_module::variables::{StatsField, VARIABLE_COUNT, variable};

fn enabled_config() -> CompressConfig {
    let mut config = CompressConfig::default();
    assert!(config.apply(ConfigUpdate::Named {
        name: "compress".into(),
        value: "on".into(),
    }));
    config
}

#[test]
fn builtin_gzip_conflict_needs_both_enabled() {
    assert_eq!(disabled_reason(true, Some(true)), Some(DisabledReason::BuiltinGzipEnabled));
    assert_eq!(disabled_reason(true, Some(false)), None);
    assert_eq!(disabled_reason(true, None), None);
    assert_eq!(disabled_reason(false, Some(true)), None);
}

#[test]
fn configuration_conflict_is_recorded_and_warned() {
    let mut config = enabled_config();
    assert!(record_config_conflict(&mut config, Some(true)));
    assert!(config.gzip_conflict_expected());
    assert!(!record_config_conflict(&mut config, Some(false)));
    assert!(!config.gzip_conflict_expected());
    let mut sidecar_only = CompressConfig::default();
    assert!(!record_config_conflict(&mut sidecar_only, Some(true)));
}

#[test]
fn request_time_conflict_fails_closed_and_warns_once() {
    let mut config = enabled_config();
    config.set_gzip_conflict_expected(true);
    let check = disabled_for_request(&mut config, true, true, true, None);
    assert_eq!(check, GzipRequestCheck { warn_mismatch: true, reason: Some(DisabledReason::BuiltinGzipEnabled) });
    let check = disabled_for_request(&mut config, true, true, true, Some(false));
    assert_eq!(check, GzipRequestCheck { warn_mismatch: false, reason: Some(DisabledReason::BuiltinGzipEnabled) });

    let mut config = enabled_config();
    let check = disabled_for_request(&mut config, true, true, true, Some(true));
    assert_eq!(check.reason, Some(DisabledReason::BuiltinGzipEnabled));
    assert!(check.warn_mismatch);
    let check = disabled_for_request(&mut config, true, true, true, Some(false));
    assert_eq!(check, GzipRequestCheck { warn_mismatch: false, reason: None });
    let check = disabled_for_request(&mut config, true, false, true, Some(true));
    assert_eq!(check, GzipRequestCheck { warn_mismatch: false, reason: None });
    let check = disabled_for_request(&mut config, false, true, true, Some(true));
    assert_eq!(check, GzipRequestCheck { warn_mismatch: false, reason: None });
    let mut fresh = enabled_config();
    let check = disabled_for_request(&mut fresh, true, true, false, None);
    assert_eq!(check, GzipRequestCheck { warn_mismatch: false, reason: None });
}

#[test]
fn sidecar_handling_rules() {
    assert!(sidecar_enabled(StaticMode::On, None));
    assert!(sidecar_enabled(StaticMode::Always, None));
    assert!(!sidecar_enabled(StaticMode::Off, None));
    assert!(!sidecar_enabled(StaticMode::On, Some(DisabledReason::BuiltinGzipEnabled)));
    assert!(method_supported(HTTP_GET));
    assert!(method_supported(HTTP_HEAD));
    assert!(!method_supported(8));
    assert!(!method_supported(1));
    assert_eq!(sidecar_path_len(1000, 1010, 3), Some(13));
    assert_eq!(sidecar_path_len(0, 1010, 3), None);
    assert_eq!(sidecar_path_len(1000, 0, 3), None);
    assert_eq!(sidecar_path_len(1010, 1000, 3), None);
    assert_eq!(sidecar_path_len(1, usize::MAX, 2), None);
    assert!(header_completes_response(-1, false));
    assert!(header_completes_response(304, false));
    assert!(header_completes_response(0, true));
    assert!(!header_completes_response(0, false));
}

#[test]
fn fault_points_and_log_keys() {
    assert!(!take(Point::Downstream));
    assert_eq!(point_named("codec_reset"), Some(Point::CodecReset));
    assert_eq!(point_named("header_allocation"), Some(Point::HeaderAllocation));
    assert_eq!(point_named("Downstream"), None);
    assert_eq!(Callback::StaticHandler.name(), "static_handler");
    assert_eq!(Callback::SetBuffers.name(), "set_buffers");
    assert_eq!(FailureClass::InvalidCodecProgress.name(), "invalid_codec_progress");
    assert_eq!(FailureClass::RustPanic.name(), "rust_panic");
}

#[test]
fn compression_variables_table() {
    assert_eq!(variable(0), Some(("compress_coding", StatsField::Coding)));
    assert_eq!(variable(5), Some(("compress_time_ms", StatsField::TimeMs)));
    assert_eq!(variable(VARIABLE_COUNT), None);
}

#[test]
fn codings_profiles_and_text_helpers() {
    assert_eq!(parse_runtime_coding("Br"), Some(ContentCoding::Brotli));
    assert_eq!(parse_runtime_coding("identity"), None);
    assert_eq!(ContentCoding::Zstd.as_str(), "zstd");
    assert_eq!(ContentCoding::Brotli.as_str(), "br");
    assert_eq!(Profile::parse("BALANCED"), Some(Profile::Balanced));
    assert_eq!(Profile::parse("max"), None);
    assert!(Profile::Custom.preset().is_none());
    assert_eq!(Profile::Balanced.preset().map(|p| p.brotli_level), Some(5));
    assert!(str_eq("gzip", "gzip"));
    assert!(!str_eq("gzip", "Gzip"));
    assert!(eq_ignore_ascii_case("GZip", "gzip"));
    assert!(!eq_ignore_ascii_case("gzi", "gzip"));
    assert!(!eq_ignore_ascii_case("é", "É"));
    assert!(bytes_eq_ignore_ascii_case(b"ACCEPT", b"accept"));
    assert_eq!(parse_unsigned("18446744073709551615", u64::MAX), Some(u64::MAX));
    assert_eq!(parse_unsigned("18446744073709551616", u64::MAX), None);
    assert_eq!(parse_unsigned("0010", 10), Some(10));
    assert_eq!(parse_i32("-2147483648"), Some(i32::MIN));
    assert_eq!(parse_i32("2147483648"), None);
    assert_eq!(parse_i32("-+1"), None);
    assert_eq!(parse_i32("+17"), Some(17));
}

#[test]
fn fault_injection_fires_once_per_worker() {
    let selected = Some(Point::OutputAllocation);
    assert_eq!(injection_step(selected, Point::Downstream, false), (false, false));
    assert_eq!(injection_step(selected, Point::OutputAllocation, false), (true, true));
    assert_eq!(injection_step(selected, Point::OutputAllocation, true), (false, true));
    assert_eq!(injection_step(None, Point::OutputAllocation, false), (false, false));
}

#[test]
fn shared_configurations_are_inspected_once() {
    let mut seen = Vec::new();
    assert!(first_inspection(&mut seen, 0x1000));
    assert!(first_inspection(&mut seen, 0x2000));
    assert!(!first_inspection(&mut seen, 0x1000));
    assert_eq!(seen, vec![0x1000, 0x2000]);
}
