[package]
name = "redis_watcher"
version = "0.1.0"
edition = "2021"
publish = false

[dependencies]
casbin = { version = "*", features = ["watcher"] }
log = "*"
redis = { version = "*", features = ["tokio-comp"] }
serde = { version = "*", features = ["derive"] }
serde_json = "*"
thiserror = "*"
tokio = { version = "*", features = ["rt", "rt-multi-thread", "macros", "sync", "time"] }
tokio-stream = "*"
uuid = { version = "*", features = ["v4"] }
