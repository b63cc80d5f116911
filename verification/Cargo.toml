[package]
name = "api_core"
version = "0.1.0"
edition = "2021"
publish = false

[dependencies]
axum = "=0.7.9"
chrono = "=0.4.45"
clap = { version = "=4.6.7", features = ["derive", "env"] }
env_logger = "=0.11.11"
init-tracing-opentelemetry = { version = "=0.43.0", features = ["otlp", "tracer"] }
log = "=0.4.34"
metrics = "=0.24.6"
metrics-exporter-prometheus = "=0.18.3"
metrics-util = "=0.20.4"
opentelemetry = "=0.33.0"
opentelemetry_sdk = "=0.33.0"
reqwest = { version = "=0.13.5", features = ["native-tls"] }
reqwest-middleware = "=0.5.2"
reqwest-tracing = "=0.7.1"
tokio = { version = "=1.53.2", features = ["rt-multi-thread", "macros", "net"] }
tower = "=0.5.3"
tower-http = { version = "=0.6.11", features = ["trace"] }
tracing = "=0.1.44"
tracing-opentelemetry = "=0.34.0"
tracing-subscriber = { version = "=0.3.23", features = ["env-filter", "json"] }
