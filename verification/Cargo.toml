[package]
name = "drawing_pad"
version = "0.1.0"
edition = "2021"
publish = false

[dependencies]
winit = "*"
glutin = "*"
glutin-winit = "*"
raw-window-handle = "*"
skia-safe = { version = "*", features = ["gl"] }
