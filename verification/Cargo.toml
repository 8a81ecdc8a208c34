[package]
name = "countersyncd"
version = "0.1.0"
edition = "2021"
publish = false

[dependencies]
byteorder = "=1.5.0"
ipfixrw = "=0.1.0"
yaml-rust = "0.4"
chrono = "=0.4.45"
ahash = "=0.8.12"
log = "0.4"
env_logger = "0.11"
clap = { version = "4", features = ["derive"] }
tokio = { version = "1", features = ["full"] }
neli = "=0.7.5"
