[package]
name = "module_cache"
version = "0.1.0"
edition = "2021"
publish = false

[dependencies]
base64 = "0.10"
bincode = "1"
directories = "2"
lazy_static = "1"
log = "0.4"
serde = "1"
sha2 = "0.8"
spin = "0.5"
zstd = { version = "0.4", default-features = false }
