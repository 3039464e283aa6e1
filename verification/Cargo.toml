[package]
name = "rust_adb"
version = "0.1.0"
edition = "2021"
publish = false

[dependencies]
backoff = "*"
env_logger = "*"
indicatif = "*"
log = "*"
serde = { version = "*", features = ["derive"] }
serde_json = "*"
thiserror = "*"
tokio = { version = "*", features = ["process", "time", "rt-multi-thread", "macros"] }
