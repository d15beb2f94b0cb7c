[package]
name = "wolfram_client"
version = "0.1.0"
edition = "2021"
publish = false

[dependencies]
clap = { version = "4", features = ["derive"] }
dialoguer = "0.11"
indicatif = "0.17"
reqwest = { version = "0.11", features = ["blocking"] }
serde_json = "1"
