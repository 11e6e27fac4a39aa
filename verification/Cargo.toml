[package]
name = "papercut"
version = "0.1.0"
edition = "2021"
publish = false

[dependencies]
bytemuck = "1"
env_logger = "0.9"
futures = "0.3"
glam = "0.22"
lyon = "1.0"
wgpu = "0.14"
winit = "0.27"
winit_input_helper = "0.13"
