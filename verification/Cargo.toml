[package]
name = "drone"
version = "0.1.0"
edition = "2021"
publish = false

[dependencies]
ansi_term = "0.12"
anyhow = "1"
drone-config = "*"
futures = "0.3"
mio-serial = "*"
pin-project = "1"
serde = { version = "1", features = ["derive"] }
serde_json = "1"
structopt = "0.3"
thiserror = "1"
tokio = { version = "1", features = ["full"] }
toml = "0.5"
walkdir = "2"
