[package]
name = "temporal_json"
version = "0.1.0"
edition = "2021"
publish = false

[dependencies]
anyhow = "1"
axum = "0.6"
config = { version = "0.13", default-features = false, features = ["ini"] }
once_cell = "1"
serde = { version = "1", features = ["derive"] }
serde_json = "1"
slack-morphism = "1"
temporal-sdk-core-protos = "*"
tokio = { version = "1", features = ["macros", "rt-multi-thread"] }
tower-http = { version = "0.4", features = ["trace", "validate-request", "auth"] }
tracing = "0.1"
tracing-subscriber = { version = "0.3", features = ["env-filter"] }
url = "2"
uuid = { version = "1", features = ["v4"] }
