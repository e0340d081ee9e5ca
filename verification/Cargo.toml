[package]
name = "slog_opentelemetry"
version = "0.1.0"
edition = "2021"
publish = false

[dependencies]
slog = { version = "=2.8.2", features = ["nested-values"] }
opentelemetry = "=0.33.0"
opentelemetry_sdk = "=0.33.0"
opentelemetry-semantic-conventions = "=0.33.0"
serde_json = "=1.0.151"
thiserror = "=2.0.21"
