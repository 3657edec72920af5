[package]
name = "connectx"
version = "0.1.0"
edition = "2021"
publish = false

[dependencies]
csv = "=1.4.0"
serde = { version = "=1.0.229", features = ["derive"] }
tauri = { version = "=2.12.5", default-features = false, features = ["wry", "tray-icon"] }
windows = { version = "=0.62.2", features = ["Win32_Foundation", "Win32_Security_Credentials"] }
