[package]
name = "zkp_service_helper"
version = "0.1.0"
edition = "2021"
publish = false

[dependencies]
anyhow = "1"
ethers = { version = "2", default-features = false }
reqwest = { version = "0.11", default-features = false, features = ["json", "multipart"] }
serde = { version = "1", features = ["derive"] }
serde_json = { version = "1", features = ["preserve_order"] }
serde_urlencoded = "0.7"
