[package]
name = "service_harness"
version = "0.1.0"
edition = "2021"
publish = false

[dependencies]
anyhow = "1"
async-trait = "0.1"
nix = { version = "0.29", features = ["signal"] }
reqwest = { version = "0.12", default-features = false }
tokio = { version = "1", features = ["full"] }
