[package]
name = "log_processor"
version = "0.1.0"
edition = "2021"
publish = false

[dependencies]
chrono = "0.4"
regex = "1"
clap = { version = "4", features = ["derive"] }
dotenv = "0.15"
elasticsearch = "8.5.0-alpha.1"
env_logger = "0.11"
log = "0.4"
reqwest = "0.11"
serde = { version = "1", features = ["derive"] }
serde-inline-default = "0.2"
serde_json = "1"
tokio = { version = "1", features = ["rt-multi-thread"] }
