[package]
name = "internal_api"
version = "0.1.0"
edition = "2021"
publish = false

[dependencies]
image = { version = "=0.25.10", default-features = false, features = ["jpeg", "webp"] }
libcaesium = { version = "=0.21.2", default-features = false, features = ["jpg", "webp"] }
serde = { version = "=1.0.229", features = ["derive"] }
serde_json = "=1.0.154"
tauri = { version = "=2.12.5", default-features = false }
webp = "=0.3.1"
