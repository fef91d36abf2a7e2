[package]
name = "observlib"
version = "0.1.0"
edition = "2021"
publish = false

[dependencies]
opentelemetry = "*"
opentelemetry_sdk = "*"
opentelemetry-otlp = { version = "*", default-features = false, features = ["http-proto", "reqwest-blocking-client", "trace", "metrics", "logs"] }
opentelemetry-appender-tracing = "*"
tracing-subscriber = { version = "*", features = ["env-filter"] }
tokio = { version = "*", features = ["rt-multi-thread", "time"] }
