[package]
name = "gwmc_admin"
version = "0.1.0"
edition = "2021"
publish = false

[dependencies]
base64 = "0.13"
rand = "0.8"
chrono = "0.4"
serde = { version = "1", features = ["derive"] }
serde_json = "1"
warp = "0.3"
tokio = { version = "1", features = ["full"] }
futures-util = "0.3"
tokio-stream = "0.1"
log = "0.4"
dotenv = "0.15"
ipnetwork = "0.20"
