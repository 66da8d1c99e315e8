[package]
name = "upm"
version = "0.1.0"
edition = "2021"
publish = false

[dependencies]
anyhow = "1"
clap = { version = "4", features = ["derive"] }
env_logger = "0.11"
log = "0.4"
nix = { version = "0.29", features = ["user", "process"] }
ratatui = "0.27"
regex = "1"
serde = { version = "1", features = ["derive"] }
serde_json = "1"
