[package]
name = "tradebot"
version = "0.1.0"
edition = "2021"
publish = false

[dependencies]
anyhow = "1"
apca = "=0.31.0"
chrono = "=0.4.45"
crossbeam-channel = "0.5"
csv = "=1.4.0"
futures = "0.3"
num-decimal = { version = "*", default-features = false, features = ["num-v04"] }
serde = { version = "1", features = ["derive"] }
sled = "*"
threadpool = "1"
tokio = { version = "1", features = ["rt-multi-thread"] }
toml = "*"
tracing = "0.1"
tracing-subscriber = "0.3"
