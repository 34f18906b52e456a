[package]
name = "colorimeter"
version = "0.1.0"
edition = "2021"
publish = false

[dependencies]
anyhow = "*"
btleplug = "*"
chrono = "*"
clap = { version = "*", features = ["derive"] }
env_logger = "*"
futures = "*"
jzon = "*"
log = "*"
rustyline-async = "*"
tokio = { version = "*", features = ["full"] }
tokio-stream = "*"
tokio-tungstenite = "*"
uuid = "*"
