[package]
name = "animus-transport-http"
version = "0.1.0"
edition = "2021"
publish = false

[dependencies]
anyhow = "1"
axum = "0.8"
chrono = "0.4"
serde = { version = "1", features = ["derive"] }
serde_json = "1"
tokio = { version = "1", features = ["net", "io-util", "sync", "rt", "macros", "time"] }
tower-http = { version = "0.6", features = ["cors", "trace"] }
tracing = "0.1"
