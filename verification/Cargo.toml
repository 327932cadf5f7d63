[package]
name = "ndns"
version = "0.1.0"
edition = "2021"
publish = false

[dependencies]
url = "2"
anyhow = "*"
async-trait = "*"
dotenvy = "*"
env_logger = "*"
log = "*"
tokio = { version = "1", features = ["full"] }
rustls = { version = "0.23", features = ["ring"] }
rustls-pemfile = "2"
hickory-client = "=0.25.2"
hickory-proto = { version = "=0.25.2", features = ["h3-ring", "quic-ring"] }
hickory-server = { version = "=0.25.2", features = ["h3-ring", "quic-ring"] }
