[package]
name = "zed_settings"
version = "0.1.0"
edition = "2021"
publish = false

[dependencies]
dirs = "*"
json5 = "*"
serde_json = "1"
tauri = { version = "2", default-features = false }
