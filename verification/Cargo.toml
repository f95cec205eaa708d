[package]
name = "photo_circuit_api"
version = "0.1.0"
edition = "2021"
publish = false

[dependencies]
langchain-rust = "*"
async-trait = "0.1"
serde_json = "1"
tokio = { version = "1", features = ["rt", "rt-multi-thread", "macros"] }
rocket = "0.5"
