[package]
name = "water_scene"
version = "0.1.0"
edition = "2021"
publish = false

[dependencies]
anyhow = "1"
bytemuck = { version = "1", features = ["derive"] }
env_logger = "0.10"
image = "0.24"
wgpu = "0.14"
winit = { version = "0.27", default-features = false, features = ["x11"] }
