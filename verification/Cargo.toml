[package]
name = "otel_service"
version = "0.1.0"
edition = "2021"
publish = false

[dependencies]
opentelemetry = "*"
opentelemetry_sdk = "*"
opentelemetry-otlp = { version = "*", features = ["http-json"] }
opentelemetry-appender-tracing = "*"
tracing = "*"
tracing-subscriber = "*"
axum = "*"
tokio = { version = "*", features = ["rt-multi-thread", "macros", "signal", "net"] }
serde = { version = "*", features = ["derive"] }
