[package]
name = "fred_timeout_test"
version = "0.1.0"
edition = "2021"
publish = false

[dependencies]
axum = "0.7"
console-subscriber = "0.2"
env_logger = "0.11"
fred = { version = "=7.1.2", features = ["check-unresponsive"] }
serde = { version = "1", features = ["derive"] }
serde_json = "1"
tokio = { version = "1", features = ["full"] }
tracing-subscriber = { version = "0.3", features = ["env-filter"] }
