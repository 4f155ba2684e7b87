//! Precompressed-sidecar serving (`compress_static`) decisions: whether the
//! content handler runs, which requests it accepts, the sidecar path length,
//! and when the submitted response is complete.

use vstd::prelude::*;

use crate::coding::StaticMode;
use crate::gzip::DisabledReason;

verus! {

/// NGINX's `GET` method bit.
pub const HTTP_GET: usize = 2;
/// NGINX's `HEAD` method bit.
pub const HTTP_HEAD: usize = 4;
/// `NGX_OK`.
pub const NGX_OK: isize = 0;
/// `NGX_ERROR`.
pub const NGX_ERROR: isize = -1;
/// `500 Internal Server Error`.
pub const HTTP_INTERNAL_SERVER_ERROR: isize = 500;

/// Sidecars are served when `compress_static` is on or always, unless the
/// location is left to the built-in gzip filter.
pub fn sidecar_enabled(static_mode: StaticMode, disabled: Option<DisabledReason>) -> (r: bool)
    ensures
        r == (static_mode != StaticMode::Off && disabled is None),
{
    static_mode != StaticMode::Off && disabled.is_none()
}

/// Only `GET` and `HEAD` requests are served from sidecars.
pub fn method_supported(method: usize) -> (r: bool)
    ensures
        r == (method & (HTTP_GET | HTTP_HEAD) != 0),
{
    method & (HTTP_GET | HTTP_HEAD) != 0
}

/// The length of a mapped path with a sidecar extension appended: NGINX maps
/// the URI into storage at `data` and reports `last`, the end of the mapped
/// path, with room reserved for the extension. Null addresses, a reversed
/// range, or an overflowing length are refused.
pub fn sidecar_path_len(data: usize, last: usize, extension_len: usize) -> (r: Option<usize>)
    ensures
        r == if data == 0 || last == 0 || last < data || (last - data) + extension_len > usize::MAX {
            None
        } else {
            Some(((last - data) + extension_len) as usize)
        },
{
    if data == 0 || last == 0 {
        return None;
    }
    if last < data {
        return None;
    }
    let base = last - data;
    if base > usize::MAX - extension_len {
        return None;
    }
    Some(base + extension_len)
}

/// After sending the header, the response is complete without a body when
/// sending failed, returned a special response code, or the request is
/// `HEAD`-like (header only).
pub fn header_completes_response(rc: isize, header_only: bool) -> (r: bool)
    ensures
        r == (rc == NGX_ERROR || rc > NGX_OK || header_only),
{
    rc == NGX_ERROR || rc > NGX_OK || header_only
}

} // verus!
