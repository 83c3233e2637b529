[package]
name = "engine_runtime"
version = "0.1.0"
edition = "2021"
publish = false

[dependencies]
winit = "0.30"
wgpu = "*"
wgpu_text = "*"
pollster = "0.4"
