[package]
name = "chtbtr"
version = "0.2.0"
edition = "2021"
publish = false

[dependencies]
actix-web = "=4.15.0"
clap = "=2.34.0"
env_logger = "=0.10.2"
log = "=0.4.34"
reqwest = { version = "=0.11.27", features = ["blocking", "json"] }
serde = { version = "=1.0.229", features = ["derive"] }
uuid = { version = "=1.27.0", features = ["v4", "serde"] }
chrono = { version = "=0.4.45", features = ["serde"] }
