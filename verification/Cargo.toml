[package]
name = "context_logger"
version = "0.1.0"
edition = "2021"
publish = false

[dependencies]
log = { version = "0.4", features = ["kv", "kv_std", "kv_serde"] }
serde = "1.0"
erased-serde = "0.4"
pin-project = "1"
