[package]
name = "rumsim"
version = "0.1.0"
edition = "2021"
publish = false

[dependencies]
rand = "0.8"
chrono = "0.4"
tokio = { version = "1", features = ["full"] }
futures = "0.3"
rumqttc = { version = "0.24", default-features = false, features = ["url"] }
tracing = "0.1"
tracing-subscriber = { version = "0.3", features = ["env-filter"] }
tracing-opentelemetry = "0.23"
opentelemetry = { version = "0.22", features = ["metrics", "otel_unstable"] }
opentelemetry_sdk = { version = "0.22", features = ["rt-tokio", "metrics"] }
opentelemetry-otlp = { version = "0.15", features = ["metrics"] }
opentelemetry-semantic-conventions = "0.14"
tonic = "0.11"
