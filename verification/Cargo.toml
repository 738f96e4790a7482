[package]
name = "videohub_bridge"
version = "0.1.0"
edition = "2021"
publish = false

[dependencies]
anyhow = "1"
dotenv = "0.15"
env_logger = "0.11"
futures-util = "0.3"
hostname = "0.4"
log = "0.4"
rship-sdk = "=0.1.20"
schemars = "0.8"
serde = { version = "1", features = ["derive"] }
tokio = { version = "1", features = ["full"] }
tokio-util = { version = "0.7", features = ["codec"] }
videohub = "=1.0.1"
