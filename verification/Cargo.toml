[package]
name = "pocket_dimension"
version = "0.1.0"
edition = "2021"
publish = false

[dependencies]
anyhow = "1"
env_logger = "*"
libc = "0.2"
serde = { version = "1", features = ["derive"] }
serde_json = "1"
toml = "*"
whoami = "1"
