[package]
name = "instrumentation_score_rs"
version = "0.1.0"
edition = "2021"
publish = false

[dependencies]
elasticsearch = "8.5.0-alpha.1"
serde_json = "1"
tokio = { version = "1", features = ["rt-multi-thread"] }
