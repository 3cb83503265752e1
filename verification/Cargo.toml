[package]
name = "tentacle"
version = "0.1.0"
edition = "2021"
publish = false

[dependencies]
bytes = "1"
futures = "0.3"
log = "0.4"
tokio = { version = "1", features = ["rt", "rt-multi-thread", "io-util", "net", "time"] }
tokio-util = { version = "0.7", features = ["codec"] }
prometheus = { version = "0.13", default-features = false }
lazy_static = "1"
