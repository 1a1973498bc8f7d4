[package]
name = "metrics_pipeline"
version = "0.1.0"
edition = "2021"
publish = false

[dependencies]
rand = "*"
tokio = { version = "*", features = ["full"] }
axum = "*"
opentelemetry = { version = "*", features = ["metrics"] }
opentelemetry_sdk = { version = "*", features = ["metrics"] }
opentelemetry-otlp = { version = "*", features = ["metrics", "grpc-tonic"] }
