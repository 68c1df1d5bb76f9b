[package]
name = "tee_worker"
version = "0.1.0"
edition = "2021"
publish = false

[dependencies]
parity-scale-codec = "3"
hex = "0.4"
base58 = "0.2"
sp-core = "21"
log = "0.4"
env_logger = "0.10"
clap = "4"
serde = { version = "1", features = ["derive"] }
serde_json = "1"
thiserror = "1"
