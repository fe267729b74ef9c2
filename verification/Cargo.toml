[package]
name = "cardano_sandbox"
version = "0.1.0"
edition = "2021"
publish = false

[dependencies]
serde_json = "*"
pallas-addresses = "*"
clap = { version = "*", features = ["derive"] }
