[package]
name = "j2v"
version = "0.1.0"
edition = "2021"
publish = false

[dependencies]
hound = "3.5"
serde = { version = "1", features = ["derive"] }
serde_json = "1"
crossbeam-channel = "0.5"
parking_lot = "0.12"
dirs = "5"
chrono = "0.4"
log = "0.4"
env_logger = "0.11"
cpal = "0.14"
reqwest = { version = "0.12", default-features = false, features = ["blocking", "json"] }
