[package]
name = "test_faker"
version = "0.1.0"
edition = "2021"
publish = false

[dependencies]
anyhow = "1"
axum = "0.5"
clap = "2"
env_logger = "0.9"
futures = "0.3"
log = "0.4"
rdkafka = "0.28"
serde = { version = "1", features = ["derive"] }
serde_json = "1"
serde_yaml = "0.8"
similar = "2"
tokio = { version = "1", features = ["full"] }
tracing = "0.1"
