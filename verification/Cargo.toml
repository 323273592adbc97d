[package]
name = "prompt_optimizer"
version = "0.3.0"
edition = "2021"
publish = false

[dependencies]
serde = { version = "1", features = ["derive"] }
serde_json = "1"
ureq = { version = "3", features = ["native-tls", "platform-verifier"] }
