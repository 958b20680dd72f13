[package]
name = "mandelbulb"
version = "0.1.0"
edition = "2021"
publish = false

[dependencies]
bytemuck = { version = "*", features = ["derive"] }
eframe = { version = "*", default-features = false, features = ["wgpu", "default_fonts", "x11"] }
env_logger = "*"
flume = "*"
log = "*"
nalgebra = "*"
wasm-bindgen-futures = "*"
web-sys = { version = "*", features = ["Window", "Document", "Element", "HtmlCanvasElement"] }
