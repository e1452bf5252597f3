[package]
name = "gpu_automata"
version = "0.1.0"
edition = "2021"
publish = false

[dependencies]
rand = "0.8"
wgpu = "0.20"
winit = "0.30"
pollster = "0.3"
env_logger = "0.11"
bytemuck = { version = "1", features = ["derive"] }
