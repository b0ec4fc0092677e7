[package]
name = "shareflow"
version = "0.1.0"
edition = "2021"
publish = false

[dependencies]
anyhow = "=1.0.104"
futures-util = "=0.3.34"
hostname = "=0.4.2"
local-ip-address = "=0.6.13"
rdev = { version = "=0.5.3", features = ["unstable_grab"] }
serde = { version = "=1.0.229", features = ["derive"] }
serde_json = "=1.0.154"
tokio = { version = "=1.54.1", features = ["full"] }
tokio-tungstenite = "=0.21.0"

[dev-dependencies]
bincode = "=1.3.3"
