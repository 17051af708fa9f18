[package]
name = "geyser_client"
version = "0.1.0"
edition = "2021"
publish = false

[dependencies]
anyhow = "*"
bs58 = "=0.5.1"
clap = { version = "*", features = ["derive"] }
env_logger = "*"
futures = "*"
hex = "=0.4.3"
indicatif = "*"
inquire = "*"
log = "*"
serde_json = "*"
tokio = { version = "*", features = ["macros", "rt-multi-thread", "fs", "time"] }
tonic = "*"
yellowstone-grpc-client = "*"
yellowstone-grpc-proto = { version = "*", default-features = false }
