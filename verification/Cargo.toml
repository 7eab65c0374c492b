[package]
name = "tokuin"
version = "0.1.0"
edition = "2021"
publish = false

[dependencies]
tiktoken-rs = "=0.12.1"
serde_json = "=1.0.151"
clap = { version = "=4.6.7", features = ["derive"] }
notify = "=8.2.0"
