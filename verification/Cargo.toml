[package]
name = "deploy_notify"
version = "0.1.0"
edition = "2021"
publish = false

[dependencies]
clap = { version = "3", features = ["derive"] }
ureq = "2"

[dev-dependencies]
serde_json = "1"
