[package]
name = "mockstream"
version = "0.1.0"
edition = "2021"
publish = false

[dependencies]
futures-core = { version = "0.3", default-features = false }
tokio = { version = "1", default-features = false, features = ["time"] }
