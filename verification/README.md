# ngx_compress_module

The verified policy core of an NGINX HTTP response-compression module
(gzip, deflate, Brotli, Zstandard, and precompressed sidecars).

- `src/` is the library, verified with Verus: directive parsing and
  location-configuration inheritance (`config`, `profile`, `coding`, `text`),
  `Accept-Encoding` negotiation and the worker-local codec pool (`select`,
  `pool`), buffer views and the body-filter streaming decisions (`buffer`,
  `stream`), header-filter steps (`header`), built-in gzip conflicts
  (`gzip`), sidecar serving (`static_file`), and log keys, variables and
  failure injection (`observability`, `variables`, `fault`).
- `tests/` exercises the library on concrete values.
- `app/` is the NGINX boundary: module registration, directive and filter
  callbacks, and the FFI that prefetches plain values for the library and
  submits its decisions.
