[package]
name = "termcast"
version = "0.1.0"
edition = "2021"
publish = false

[dependencies]
anyhow = "*"
env_logger = "*"
log = "*"
nix = "=0.25.1"
structopt = "*"
tokio = { version = "*", features = ["full"] }
tokio-fd = "*"
