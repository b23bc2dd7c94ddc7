[package]
name = "partial-io"
version = "0.1.0"
edition = "2021"
publish = false

[dependencies]
futures = "0.3"
pin-project = "1"
proptest = { version = "1", default-features = false, features = ["std"] }
tokio = "1"
