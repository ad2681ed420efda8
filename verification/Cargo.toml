[package]
name = "engine_rs"
version = "0.1.0"
edition = "2021"
publish = false

[dependencies]
actix = "0.13"
actix-codec = "0.5"
actix-rt = "2"
awc = { version = "3", features = ["openssl"] }
binance-rs-async = "*"
chrono = "0.4"
dotenv = "0.15"
env_logger = "*"
futures-util = "0.3"
log = "0.4"
openssl = "0.10"
serde = { version = "1", features = ["derive"] }
serde_json = "1"
