[package]
name = "cube_renderer"
version = "0.1.0"
edition = "2021"
publish = false

[dependencies]
bytemuck = "1"
futures = "0.3"
glam = "0.8"
glsl-to-spirv = "0.1"
image = "0.23"
log = "0.4"
nalgebra = "0.21"
serde = { version = "1", features = ["derive"] }
simplelog = "0.8"
toml = "0.5"
wgpu = "0.5"
winit = "0.22"
