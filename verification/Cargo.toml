[package]
name = "gpu_renderer"
version = "0.1.0"
edition = "2021"
publish = false

[dependencies]
image = { version = "0.23", default-features = false }
glow = "0.7"
wgpu = "0.7"
imgref = "1"
rgb = "0.8"
