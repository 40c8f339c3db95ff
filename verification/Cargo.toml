[package]
name = "jam"
version = "0.1.0"
edition = "2021"
publish = false

[dependencies]
clap = "=2.34.0"
self_update = { version = "=0.41.0", default-features = false, features = ["rustls"] }
