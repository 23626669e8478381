[package]
name = "docker-ops-agent"
version = "0.5.0"
edition = "2021"
publish = false

[dependencies]
axum = "0.7"
chrono = "0.4"
once_cell = "1"
regex = "1"
serde = { version = "1", features = ["derive"] }
serde_json = "1"
tokio = { version = "1", features = ["full"] }
toml = "0.8"
tracing = "0.1"
tracing-subscriber = "0.3"
uuid = { version = "1", features = ["v4"] }
