[package]
name = "mpl-wgpu"
version = "0.1.0"
edition = "2021"
publish = false

[dependencies]
anyhow = "1"
bytemuck = { version = "1", features = ["derive"] }
glam = "*"
image = { version = "0.25", default-features = false, features = ["png"] }
pollster = "0.3"
wgpu = "0.20"
wgpu_text = "0.8"
