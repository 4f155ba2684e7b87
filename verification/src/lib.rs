//! Verified policy core of an NGINX HTTP response-compression module:
//! directive parsing, location-configuration inheritance and resolution,
//! `Accept-Encoding` driven codec selection, worker-local codec reuse, and the
//! buffer and streaming decisions taken inside the header and body filters.
//!
//! The NGINX boundary (module registration, directive callbacks, filter and
//! content-handler callbacks, pool allocation and logging) prefetches plain
//! values, calls into this crate for every decision, and submits the result.

pub mod text;
pub mod coding;
pub mod profile;
pub mod config;
pub mod pool;
pub mod select;
pub mod buffer;
pub mod stream;
pub mod header;
pub mod gzip;
pub mod static_file;
pub mod variables;
pub mod observability;
pub mod fault;
