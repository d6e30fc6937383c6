[package]
name = "coding_agent"
version = "0.1.0"
edition = "2021"
publish = false

[dependencies]
anyhow = "1"
openai_api_rust = "*"
openai-harmony = "*"
serde_json = "1"
