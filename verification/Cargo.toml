[package]
name = "title_card"
version = "0.1.0"
edition = "2021"
publish = false

[dependencies]
skia-safe = { version = "=0.153.3", default-features = false }
rocket = "=0.5.2"
reqwest = "=0.12.28"
reqwest-middleware = "=0.4.2"
http-cache-reqwest = { version = "=0.16.0", default-features = false, features = ["manager-moka"] }
once_cell = "=1.21.4"
rust-embed = "=8.13.0"
