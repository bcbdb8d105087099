[package]
name = "dyn_provider"
version = "0.1.0"
edition = "2021"
publish = false

[dependencies]
rig-core = "0.11"
serde = { version = "1", features = ["derive"] }
serde_plain = "1"
anyhow = "1"
async-trait = "0.1"
