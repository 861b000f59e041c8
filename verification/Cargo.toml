[package]
name = "cargo-temp"
version = "0.1.0"
edition = "2021"
publish = false

[dependencies]
regex = "1"
anyhow = "1"
clap = { version = "4", features = ["derive"] }
serde = { version = "1", features = ["derive"] }
toml = "0.8"
tempfile = "3"
xdg = "3"
libc = "0.2"
log = "0.4"
env_logger = "0.11"
