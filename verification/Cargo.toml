[package]
name = "scoutcloud"
version = "0.1.0"
edition = "2021"
publish = false

[dependencies]
fang = { version = "0.10", default-features = false, features = ["asynk"] }
sea-orm = { version = "0.12", default-features = false }
tokio = { version = "1", features = ["time"] }
tracing = "0.1"
