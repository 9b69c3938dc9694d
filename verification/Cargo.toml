[package]
name = "nfo-viewer"
version = "0.1.0"
edition = "2021"
publish = false

[dependencies]
log = "=0.4.34"
tauri = { version = "=2.12.5", default-features = false, features = ["wry"] }
tauri-plugin-fs = { version = "2", default-features = false }
windows-sys = { version = "=0.61.2", default-features = false, features = ["Win32_Foundation", "Win32_UI_WindowsAndMessaging"] }
