[package]
name = "accel_core"
version = "0.1.0"
edition = "2021"
publish = false

[dependencies]
clap = { version = "4", features = ["derive"] }
embedded-hal = "1"
env_logger = "0.11"
futures-util = "0.3"
log = "0.4"
rppal = "*"
serde = { version = "1", features = ["derive"] }
serde_json = "1"
tokio = { version = "1", features = ["macros", "rt-multi-thread", "net", "time", "signal", "sync", "io-util"] }
tokio-tungstenite = "*"
