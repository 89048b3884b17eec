[package]
name = "workspace_catalog"
version = "0.1.0"
edition = "2021"
publish = false

[dependencies]
anyhow = "1"
cargo_metadata = "0.18"
serde = { version = "1", features = ["derive"] }
serde_json = "1"
