[package]
name = "vod_collector"
version = "0.1.0"
edition = "2021"
publish = false

[dependencies]
uuid = { version = "1", features = ["v4"] }
urlencoding = "2"
serde = { version = "1", features = ["derive"] }
serde_json = "1"
tokio = { version = "1", features = ["full"] }
reqwest = "0.11"
mongodb = "2"
futures = "0.3"
chrono = "0.4"
image = "0.24"
webp = "0.2"
