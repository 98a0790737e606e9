[package]
name = "realtime_shaders"
version = "0.1.0"
edition = "2021"
publish = false

[dependencies]
bytemuck = { version = "1", features = ["derive"] }
iced_wgpu = "0.12"
iced_widget = "0.12"
image = { version = "0.24", default-features = false, features = ["png", "jpeg", "bmp"] }
tracing-subscriber = "0.3"
