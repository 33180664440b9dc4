[package]
name = "smol_renderer"
version = "0.1.0"
edition = "2021"
publish = false

[dependencies]
wgpu = { version = "=30.0.1", features = ["spirv"] }
image = "=0.25.10"
shaderc = "=0.10.1"
once_cell = "=1.21.4"
