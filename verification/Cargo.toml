[package]
name = "s3mon"
version = "0.1.0"
edition = "2021"
publish = false

[dependencies]
chrono = "=0.4.45"
clap = "=2.34.0"
env_logger = "=0.7.1"
futures = "=0.1.31"
rusoto_core = "=0.42.0"
rusoto_credential = "=0.42.0"
rusoto_s3 = "=0.42.0"
serde = { version = "=1.0.229", features = ["derive"] }
serde_yaml = "=0.8.26"
slack-hook = "=0.8.0"
