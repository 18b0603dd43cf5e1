[package]
name = "mockapi"
version = "1.1.0"
edition = "2021"
publish = false

[dependencies]
uuid = { version = "=1.29.1", features = ["v4"] }
chrono = "=0.4.45"
serde_json = "=1.0.154"
mime_guess = "=2.0.5"
serde = { version = "=1.0.229", features = ["derive"] }
anyhow = "=1.0.104"
axum = { version = "=0.7.9", features = ["multipart"] }
tokio = { version = "=1.54.1", features = ["full"] }
tower-http = { version = "=0.5.2", features = ["cors"] }
tracing = "=0.1.44"
tracing-subscriber = { version = "=0.3.23", features = ["env-filter"] }
clap = { version = "=4.6.7", features = ["derive"] }
rusqlite = "=0.31.0"
rust-embed = { version = "=8.13.0", features = ["interpolate-folder-path"] }
