[package]
name = "idgen_rs"
version = "0.2.0"
edition = "2021"
publish = false

[dependencies]
base62 = "2"
base64 = "0.22"
chrono = "0.4"
lazy_static = "1"
