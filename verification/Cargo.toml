[package]
name = "ngx_compress_module"
version = "0.2.0"
edition = "2021"
publish = false

[dependencies]
ngx = "*"
