[package]
name = "pongllm"
version = "0.1.0"
edition = "2021"
publish = false

[dependencies]
chrono = "0.4"
cron = "0.12"
serde = { version = "1", features = ["derive"] }
serde_json = "1"
url = "2"
tokio = { version = "1", features = ["sync", "time", "rt", "rt-multi-thread", "macros"] }
tokio-cron-scheduler = "0.13"
uuid = { version = "1", features = ["v4"] }
log = "0.4"
thiserror = "2"
