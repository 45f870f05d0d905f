[package]
name = "llm_term"
version = "1.0.0"
edition = "2021"
publish = false

[dependencies]
clap = "4"
colored = "2"
openai_api_rust = "0.1"
reqwest = { version = "0.12", features = ["blocking", "json"] }
serde = { version = "1", features = ["derive"] }
serde_json = "1"
