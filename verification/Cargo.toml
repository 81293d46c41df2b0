[package]
name = "anarchic_image_hosting_cli"
version = "0.1.0"
edition = "2021"
publish = false

[dependencies]
clap = { version = "=4.6.7", features = ["derive"] }
env_logger = "=0.11.11"
json5 = "=1.3.4"
log = "=0.4.34"
reqwest = { version = "=0.13.5", features = ["multipart"] }
serde = { version = "=1.0.229", features = ["derive"] }
tokio = { version = "=1.54.1", features = ["fs", "io-util", "macros", "rt-multi-thread"] }

[dev-dependencies]
futures-util = "=0.3.34"
