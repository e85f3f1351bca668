[package]
name = "orbit_host"
version = "0.1.0"
edition = "2021"
publish = false

[dependencies]
bytemuck = { version = "*", features = ["derive"] }
glam = "*"
pollster = "*"
wgpu = "*"
winit = "*"
