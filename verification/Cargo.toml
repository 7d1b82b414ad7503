[package]
name = "proxy_config"
version = "0.1.0"
edition = "2021"
publish = false

[dependencies]
serde = { version = "1", features = ["derive"] }
toml = { version = "0.8", default-features = false, features = ["parse", "display"] }
tauri = { version = "2", default-features = false }
