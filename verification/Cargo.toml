[package]
name = "rust_pomodoro"
version = "0.1.0"
edition = "2021"
publish = false

[dependencies]
rand = "=0.8.8"
image = { version = "=0.24.9", default-features = false, features = ["png"] }
eframe = { version = "=0.24.1", default-features = false, features = ["glow", "default_fonts"] }
egui = "=0.24.1"
raw-window-handle = "=0.5.2"
notify-rust = "4"
winapi = { version = "=0.3.9", features = ["winuser", "windef", "minwindef", "wingdi", "libloaderapi", "consoleapi"] }
