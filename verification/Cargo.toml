[package]
name = "otk"
version = "0.1.0"
edition = "2021"
publish = false

[dependencies]
base64 = "=0.13.1"
clap = { version = "=4.6.7", features = ["derive", "env"] }
hex = "=0.4.3"
opentelemetry = { version = "0.21", features = ["logs", "metrics", "trace"] }
opentelemetry-otlp = { version = "0.14", features = ["grpc-tonic", "http-proto", "reqwest-client", "logs", "metrics", "trace", "tls"] }
opentelemetry-proto = { version = "0.4", features = ["gen-tonic-messages", "logs", "metrics", "trace"] }
opentelemetry_sdk = { version = "0.21", features = ["logs", "metrics", "trace", "rt-tokio"] }
prost = "0.11"
quick-error = "=2.0.1"
rand = "=0.8.8"
strum = "=0.26.3"
strum_macros = "=0.26.4"
tokio = { version = "1", features = ["rt-multi-thread"] }
tonic = { version = "0.9", features = ["tls"] }
