[package]
name = "context_agent"
version = "0.1.0"
edition = "2021"
publish = false

[dependencies]
anyhow = "1"
dotenv = "0.15"
incus-client = "*"
rig-core = "0.5"
tokio = { version = "1", features = ["macros", "rt-multi-thread"] }
