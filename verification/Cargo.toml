[package]
name = "persona_agent"
version = "0.1.0"
edition = "2021"
publish = false

[dependencies]
anyhow = "1"
dotenv = "0.15"
reqwest = { version = "0.11", features = ["json"] }
rig-core = "0.5"
serde_json = "1"
