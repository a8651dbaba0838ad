[package]
name = "dbmazz"
version = "0.1.0"
edition = "2021"
publish = false

[dependencies]
anyhow = "1"
async-trait = "0.1"
bytes = "1"
chrono = "0.4"
curl = "0.4"
dotenvy = "0.15"
env_logger = "0.11"
futures = "0.3"
libc = "0.2"
mysql_async = { version = "0.34", default-features = false, features = ["minimal"] }
serde_json = "1"
sonic-rs = "0.3"
tokio = { version = "1", features = ["full"] }
tokio-postgres = "0.7"
tokio-stream = "0.1"
tonic = "0.12"
tonic-reflection = "0.12"
