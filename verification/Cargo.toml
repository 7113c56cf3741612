[package]
name = "cloudpilot_shim"
version = "0.1.0"
edition = "2021"
publish = false

[dependencies]
serde = { version = "1", features = ["derive"] }
serde_json = "1"
serde_repr = "0.1"
anyhow = "1"
tokio = { version = "1", features = ["sync", "time"] }
tauri = { version = "2", default-features = false }
