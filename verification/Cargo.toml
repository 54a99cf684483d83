[package]
name = "gfx"
version = "0.1.0"
edition = "2021"
publish = false

[dependencies]
anyhow = "*"
bytemuck = { version = "*", features = ["derive"] }
env_logger = "*"
glam = "*"
image = { version = "*", default-features = false, features = ["png"] }
log = "*"
pollster = "*"
wgpu = "*"
wgpu_text = "*"
winit = "*"
