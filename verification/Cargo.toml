[package]
name = "listen_engine"
version = "0.1.0"
edition = "2021"
publish = false

[dependencies]
chrono = "*"
serde = { version = "*", features = ["derive"] }
serde_json = "*"
tokio = { version = "*", features = ["macros", "rt-multi-thread", "sync", "time"] }
bb8-redis = "*"
uuid = { version = "*", features = ["v4"] }
anyhow = "*"
tracing = "*"
