[package]
name = "uptime_monitor"
version = "0.1.0"
edition = "2021"
publish = false

[dependencies]
anyhow = "1"
chrono = { version = "0.4", default-features = false, features = ["clock", "std", "serde"] }
dashmap = "5"
eframe = { version = "0.27", default-features = false, features = ["glow"] }
env_logger = { version = "0.10", default-features = false }
log = "0.4"
serde = { version = "1", features = ["derive"] }
tokio = { version = "1", features = ["rt-multi-thread", "time", "net", "process", "fs", "sync"] }
toml = "0.8"
uuid = { version = "1", features = ["v4", "serde"] }
