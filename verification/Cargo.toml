[package]
name = "spectrus"
version = "0.1.0"
edition = "2021"
publish = false

[dependencies]
keyring = { version = "=3.6.3", default-features = false, features = ["linux-native"] }
tauri = { version = "2", default-features = false }
tauri-plugin-deep-link = "2"
tauri-plugin-process = "2"

[dev-dependencies]
linux-keyutils = "=0.2.5"
