[package]
name = "edgex_hft"
version = "0.1.0"
edition = "2021"
publish = false

[dependencies]
anyhow = "*"
chrono = "*"
env_logger = "*"
futures-util = "*"
hex = "*"
hmac = "*"
log = "*"
reqwest = { version = "*", default-features = false }
serde = { version = "*", features = ["derive"] }
serde_json = "*"
sha2 = "*"
sha3 = "*"
thiserror = "*"
tokio = { version = "*", features = ["full"] }
tokio-tungstenite = "*"
url = "*"
