[package]
name = "netrix_client"
version = "0.1.0"
edition = "2021"
publish = false

[dependencies]
serde_json = { version = "=1.0.154", features = ["preserve_order"] }
rocket = "=0.5.2"
reqwest = { version = "=0.11.27", default-features = false }
tokio = { version = "=1.54.1", features = ["sync"] }
