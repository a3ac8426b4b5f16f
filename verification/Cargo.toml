[package]
name = "wallpaper"
version = "0.1.0"
edition = "2021"
publish = false

[dependencies]
anyhow = "1"
raw-window-handle = "0.5"
tokio = { version = "1", features = ["macros", "rt-multi-thread"] }
wgpu = "0.14"
x11rb = { version = "0.10", features = ["allow-unsafe-code"] }
