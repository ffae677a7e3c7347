[package]
name = "logbot"
version = "0.1.0"
edition = "2021"
publish = false

[dependencies]
rand = "0.8"
tokio = { version = "1", features = ["rt-multi-thread", "sync", "net", "macros"] }
axum = "0.7"
serde = { version = "1", features = ["derive"] }
tracing = "0.1"
tracing-subscriber = { version = "0.3", features = ["env-filter"] }
tower-http = { version = "0.6", features = ["trace"] }
clap = { version = "4", features = ["derive"] }
anyhow = "1"
rppal = "*"
