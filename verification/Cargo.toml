[package]
name = "login_capture"
version = "0.1.0"
edition = "2021"
publish = false

[dependencies]
serde_json = "1"
log = "0.4"
tauri = { version = "2", default-features = false, features = ["wry"] }
