[package]
name = "udp_over_https"
version = "0.1.0"
edition = "2021"
publish = false

[dependencies]
actix-web = "4"
async-channel = "2"
base64 = "0.22"
clap = { version = "4", features = ["derive"] }
env_logger = "0.11"
log = "0.4"
log-once = "0.4"
reqwest = { version = "0.12", features = ["json"] }
serde = { version = "1", features = ["derive"] }
tokio = { version = "1", features = ["full"] }
