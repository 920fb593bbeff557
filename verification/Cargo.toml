[package]
name = "demo_server"
version = "0.1.0"
edition = "2021"
publish = false

[dependencies]
rand = "0.9"
uuid = { version = "1", features = ["v4"] }
anyhow = "1"
thiserror = "2"
dotenvy = "0.15"
futures = "0.3"
tokio = { version = "1", features = ["full"] }
axum = "0.8"
tower-http = { version = "0.6", features = ["trace"] }
tracing = "0.1"
tracing-subscriber = { version = "0.3", features = ["env-filter"] }
opentelemetry = "*"
opentelemetry_sdk = "*"
opentelemetry-stdout = "*"
tracing-opentelemetry = "*"
