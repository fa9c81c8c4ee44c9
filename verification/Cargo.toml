[package]
name = "obs_comm"
version = "0.1.0"
edition = "2021"
publish = false

[dependencies]
serde = { version = "*", features = ["derive"] }
serde_json = "*"
serde_repr = "*"
thiserror = "*"
log = "*"
env_logger = "*"
mp4ameta = "*"
