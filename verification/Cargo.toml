[package]
name = "hull"
version = "0.1.0"
edition = "2021"
publish = false

[dependencies]
crossbeam-channel = "0.5"
env_logger = { version = "0.6", default-features = false }
futures = "0.1"
log = "0.4"
nix = "0.16"
serde = { version = "1", features = ["derive"] }
serde_json = "1"
signal-hook = "0.1"
time = "0.1"
tokio-core = "0.1"

[dev-dependencies]
tempdir = "0.3"
