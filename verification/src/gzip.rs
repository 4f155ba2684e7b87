//! Conflicts with NGINX's built-in gzip filter.
//!
//! When built-in `gzip on` and runtime `compress` are both effective in a
//! location, this module fails closed there: runtime compression and sidecar
//! handling are both disabled, and the built-in gzip filter stays
//! authoritative. `compress off` with only `compress_static on` is not a
//! conflict.

use vstd::prelude::*;

use crate::buffer::contains_usize;
use crate::config::CompressConfig;

verus! {

/// Why this module must leave a response untouched.
#[derive(Clone, Copy, Debug, PartialEq, Eq, Structural)]
pub enum DisabledReason {
    BuiltinGzipEnabled,
}

pub open spec fn disabled_by(runtime_enabled: bool, builtin_gzip: Option<bool>) -> Option<DisabledReason> {
    if runtime_enabled && builtin_gzip == Some(true) {
        Some(DisabledReason::BuiltinGzipEnabled)
    } else {
        None
    }
}

/// Runtime compression is disabled exactly when it is enabled and the
/// built-in gzip state (when known) is enabled.
pub fn disabled_reason(runtime_enabled: bool, builtin_gzip: Option<bool>) -> (r: Option<DisabledReason>)
    ensures
        r == disabled_by(runtime_enabled, builtin_gzip),
{
    let gzip_on = match builtin_gzip {
        Some(enabled) => enabled,
        None => false,
    };
    if runtime_enabled && gzip_on {
        Some(DisabledReason::BuiltinGzipEnabled)
    } else {
        None
    }
}

/// Records, at configuration time, whether a location conflicts with the
/// built-in gzip filter (`gzip` is that location's built-in state, when it
/// could be read). Returns whether the conflict must be warned about.
pub fn record_config_conflict(config: &mut CompressConfig, gzip: Option<bool>) -> (r: bool)
    ensures
        r == disabled_by(old(config)@.resolved_enabled(), gzip) is Some,
        final(config)@ == (crate::config::ConfigView { gzip_conflict_expected: r, ..old(config)@ }),
{
    let conflict = disabled_reason(config.enabled(), gzip).is_some();
    config.set_gzip_conflict_expected(conflict);
    conflict
}

/// Notes that the location configuration at address `addr` is being
/// inspected, and returns whether this is its first inspection: locations
/// can share one configuration, which is then checked (and warned about)
/// once. No address is ever noted twice.
pub fn first_inspection(seen: &mut Vec<usize>, addr: usize) -> (r: bool)
    ensures
        r == !old(seen)@.contains(addr),
        final(seen)@ == if r {
            old(seen)@.push(addr)
        } else {
            old(seen)@
        },
        old(seen)@.no_duplicates() ==> final(seen)@.no_duplicates(),
{
    if contains_usize(seen, addr) {
        return false;
    }
    seen.push(addr);
    true
}

/// The reason a live request with runtime compression enabled is left to the
/// built-in gzip filter: the runtime read shows gzip on, or the location was
/// found in conflict at configuration time.
pub open spec fn request_verdict(runtime_state: Option<bool>, expected: bool) -> Option<DisabledReason> {
    if runtime_state == Some(true) || expected {
        Some(DisabledReason::BuiltinGzipEnabled)
    } else {
        None
    }
}

/// The request-time verdict on the built-in gzip conflict.
#[derive(Clone, Copy, Debug, PartialEq, Eq, Structural)]
pub struct GzipRequestCheck {
    /// Log (once per location) that the runtime state disagrees with the
    /// configuration-time expectation.
    pub warn_mismatch: bool,
    pub reason: Option<DisabledReason>,
}

/// Decides whether a request must be left to the built-in gzip filter.
/// `descriptor_found` says whether the built-in gzip directive exists in this
/// build; `runtime_state` is the location's built-in gzip state as read for
/// this request, when it could be read. A configuration-time conflict stays
/// in force when the runtime read fails or disagrees, and a newly observed
/// runtime conflict always disables the module.
pub fn disabled_for_request(
    config: &mut CompressConfig,
    request_live: bool,
    runtime_enabled: bool,
    descriptor_found: bool,
    runtime_state: Option<bool>,
) -> (r: GzipRequestCheck)
    ensures
        !request_live || !runtime_enabled ==> r == (GzipRequestCheck {
            warn_mismatch: false,
            reason: None,
        }) && final(config)@ == old(config)@,
        request_live && runtime_enabled ==> ({
            let runtime_conflict = runtime_state == Some(true);
            let expected = old(config)@.gzip_conflict_expected;
            let mismatch = descriptor_found && runtime_conflict != expected;
            &&& r.reason == request_verdict(runtime_state, expected)
            &&& r.warn_mismatch == (mismatch && !old(config)@.gzip_runtime_warned)
            &&& final(config)@ == if mismatch {
                crate::config::ConfigView { gzip_runtime_warned: true, ..old(config)@ }
            } else {
                old(config)@
            }
        }),
{
    if !request_live || !runtime_enabled {
        return GzipRequestCheck { warn_mismatch: false, reason: None };
    }
    let runtime_conflict = match runtime_state {
        Some(enabled) => enabled,
        None => false,
    };
    let expected = config.gzip_conflict_expected();
    let mismatch = descriptor_found && runtime_conflict != expected;
    let warn_mismatch = mismatch && !config.mark_runtime_warned();
    GzipRequestCheck {
        warn_mismatch,
        reason: disabled_reason(runtime_enabled, Some(runtime_conflict || expected)),
    }
}

/// Fail-closed: a location found in conflict at configuration time stays
/// disabled whatever the request-time read returns (including no answer),
/// and a conflict seen at request time disables it even when none was
/// expected.
pub proof fn lemma_conflict_fails_closed(runtime_state: Option<bool>, expected: bool)
    ensures
        expected ==> request_verdict(runtime_state, expected) == Some(DisabledReason::BuiltinGzipEnabled),
        runtime_state == Some(true) ==> request_verdict(runtime_state, expected) == Some(
            DisabledReason::BuiltinGzipEnabled,
        ),
        !expected && runtime_state != Some(true) ==> request_verdict(runtime_state, expected) is None,
{
}

/// A location whose runtime compression is off (for example a sidecar-only
/// `compress off; compress_static on;`) is never in conflict.
pub proof fn lemma_disabled_runtime_never_conflicts(builtin_gzip: Option<bool>)
    ensures
        disabled_by(false, builtin_gzip) is None,
{
}

} // verus!
