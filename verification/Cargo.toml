[package]
name = "aios_backend"
version = "0.1.0"
edition = "2021"
publish = false

[dependencies]
log = "0.4"
shell-words = "=1.1.1"
tauri = { version = "2", default-features = false, features = ["wry"] }
tauri-plugin-fs = "2"
