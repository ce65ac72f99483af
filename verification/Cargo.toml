[package]
name = "sentry_tunneler"
version = "0.1.0"
edition = "2021"
publish = false

[dependencies]
serde_json = "1"
sentry-types = "*"
axum = "0.6"
hyper = "0.14"
tokio = { version = "1", features = ["full"] }
tower-http = { version = "0.4", features = ["cors"] }
tracing = "0.1"
tracing-subscriber = { version = "0.3", features = ["env-filter"] }
reqwest = { version = "0.11", default-features = false }
dotenv = "0.15"
