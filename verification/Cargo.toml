[package]
name = "actor"
version = "0.1.0"
edition = "2021"
publish = false

[dependencies]
serde_json = "*"
redis = "*"
tokio = { version = "*", features = ["rt-multi-thread"] }
argh = "*"
anyhow = "*"
tracing = "*"
tracing-subscriber = { version = "*", features = ["env-filter"] }
