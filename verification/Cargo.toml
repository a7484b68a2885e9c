[package]
name = "chttp"
version = "0.5.0"
edition = "2021"
publish = false

[dependencies]
curl = "0.4"
futures = "0.3"
http = "0.1"
lazy_static = "1"
log = "0.4"
static_assertions = "0.3"
