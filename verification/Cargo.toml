[package]
name = "wvreng"
version = "0.1.0"
edition = "2021"
publish = false

[dependencies]
wgpu = "0.14"
winit = "0.27"
specs = "0.18"
pollster = "0.2"
glam = "0.22"
bytemuck = { version = "1", features = ["derive"] }
chrono = "0.4"
image = { version = "0.24", default-features = false, features = ["png", "jpeg"] }
