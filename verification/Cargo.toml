[package]
name = "terminal-miku3d"
version = "0.1.0"
edition = "2021"
publish = false

[dependencies]
anyhow = "=1.0.104"
base64 = "=0.22.1"
bytemuck = "=1.25.2"
crossterm = "=0.28.1"
futures = "=0.3.34"
glam = "=0.29.3"
gltf = { version = "=1.4.1", features = ["KHR_texture_transform"] }
image = { version = "=0.25.10", default-features = false, features = ["png"] }
ratatui = "=0.29.0"
wgpu = "=23.0.1"
