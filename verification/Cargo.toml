[package]
name = "ssmt4_backend"
version = "0.1.0"
edition = "2021"
publish = false

[dependencies]
serde = { version = "1", features = ["derive"] }
serde_json = "1"
reqwest = { version = "0.12", default-features = false, features = ["default-tls"] }
tauri = { version = "2", default-features = false }
