[package]
name = "json_migrate"
version = "0.1.0"
edition = "2021"
publish = false

[dependencies]
clap = { version = "3.2", features = ["derive"] }
serde_json = "1"
sqlite = "0.27"
