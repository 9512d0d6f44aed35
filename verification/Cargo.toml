[package]
name = "wgpu_cube"
version = "0.1.0"
edition = "2021"
publish = false

[dependencies]
bytemuck = { version = "1", features = ["derive"] }
cgmath = "0.18"
env_logger = "0.9"
log = "0.4"
wgpu = "0.14"
winit = "0.27"
