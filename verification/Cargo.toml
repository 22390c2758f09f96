[package]
name = "tauri_egui"
version = "0.1.0"
edition = "2021"
publish = false

[dependencies]
rand = "0.8"
thiserror = "1"
log = "0.4"
raw-window-handle = "0.5"
glow = "0.12"
glutin = "0.30"
egui = "0.21"
egui_glow = { version = "0.21", default-features = false }
tauri-runtime = "0.13.0-alpha.4"
tauri-runtime-wry = { version = "0.13.0-alpha.4", default-features = false }
