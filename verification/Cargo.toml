[package]
name = "pv_datalogger"
version = "0.1.0"
edition = "2021"
publish = false

[dependencies]
chrono = { version = "0.4", default-features = false, features = ["clock"] }
rand = "0.8"
redis = "0.23"
tokio-modbus = { version = "0.9", default-features = false, features = ["tcp-sync"] }
serde = { version = "1", features = ["derive"] }
serde_derive = "1"
serde_json = "1"
log = "0.4"
env_logger = "0.10"
