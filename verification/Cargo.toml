[package]
name = "desktop_shell"
version = "0.1.0"
edition = "2021"
publish = false

[dependencies]
log = "=0.4.34"
tauri = { version = "=2.12.5", default-features = false }
tauri-plugin-fs = "2"
tauri-plugin-log = "=2.10.1"
tauri-plugin-os = "2"
tauri-plugin-persisted-scope = "2"
tauri-plugin-window-state = "2"
