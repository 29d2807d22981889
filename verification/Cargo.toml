[package]
name = "wgpu_surfaces"
version = "0.1.0"
edition = "2021"
publish = false

[dependencies]
anyhow = "1"
bytemuck = { version = "1", features = ["derive"] }
cgmath = "0.18"
env_logger = "0.11"
pollster = "0.4"
rand = "0.9"
wgpu = "26"
winit = "0.30"
