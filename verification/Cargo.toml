[package]
name = "poogie"
version = "0.1.0"
edition = "2021"
publish = false

[dependencies]
naga = { version = "*", features = ["wgsl-in", "glsl-in", "spv-out"] }
ash = "0.37"
ash-window = "0.12"
raw-window-handle = "0.5"
winit = "0.28"
gpu-allocator = "0.22"
glam = "*"
memoffset = "*"
gltf = "*"
anyhow = "*"
thiserror = "*"
log = "*"
env_logger = "*"
