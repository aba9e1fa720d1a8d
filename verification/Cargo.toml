[package]
name = "codex_telegram"
version = "0.1.0"
edition = "2021"
publish = false

[dependencies]
reqwest = { version = "0.12", default-features = false, features = ["json", "rustls-tls"] }
serde = { version = "1", features = ["derive"] }
serde_json = "1"
thiserror = "2"
tokio = { version = "1", features = ["rt", "time", "sync", "macros"] }
toml = "0.9"
tracing = "0.1"
uuid = { version = "1", features = ["v4"] }
