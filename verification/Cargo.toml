[package]
name = "lostpixel_backend"
version = "0.1.0"
edition = "2021"
publish = false

[dependencies]
tauri = { version = "*", default-features = false, features = ["wry"] }
tauri-plugin-store = "*"
tauri-plugin-persisted-scope = "*"
