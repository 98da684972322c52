[package]
name = "shape_layers"
version = "0.1.0"
edition = "2021"
publish = false

[dependencies]
bytemuck = "*"
env_logger = "*"
futures = "*"
palette = "*"
wgpu = "*"
winit = "*"
