[package]
name = "veloxid"
version = "0.1.0"
edition = "2021"
publish = false

[dependencies]
chacha20 = "0.9"
sha2 = "0.10"
rand = "0.8"
dashmap = "5"
tokio = { version = "1", features = ["full"] }
serde = { version = "1", features = ["derive"] }
toml = "0.8"
log = "0.4"
env_logger = "0.11"
futures = "0.3"
anyhow = "1"
thiserror = "1"
