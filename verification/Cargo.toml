[package]
name = "media_server"
version = "0.1.0"
edition = "2021"
publish = false

[dependencies]
anyhow = "1"
askama = "0.12"
axum = "0.8"
axum-extra = { version = "0.10", features = ["cookie"] }
notify = "6"
rusqlite = "0.32"
serde = { version = "1", features = ["derive"] }
serde_yaml = "0.9"
tokio = { version = "1", features = ["full"] }
tower-http = { version = "0.6", features = ["fs", "trace"] }
tracing = "0.1"
tracing-subscriber = "0.3"
urlencoding = "2"
walkdir = "2"
which = "6"
