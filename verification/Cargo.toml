[package]
name = "tornado_monitoring"
version = "0.1.0"
edition = "2021"
publish = false

[dependencies]
serde = { version = "=1.0.229", features = ["derive"] }
serde_json = "=1.0.154"
tokio = { version = "=1.54.1", features = ["full"] }
flume = "=0.11.1"
tokio-rustls = "=0.24.1"
rustls-pemfile = "=1.0.4"
rustls-webpki = "=0.101.7"
tokio-netstring-trait = "=0.1.0"
log = "=0.4.35"
env_logger = "=0.11.11"
clap = { version = "=4.6.7", features = ["derive"] }
thiserror = "=1.0.69"
async-trait = "=0.1.92"
rand = "0.8"
