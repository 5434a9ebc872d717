[package]
name = "a_tracing_lib"
version = "0.1.0"
edition = "2021"
publish = false

[dependencies]
glam = "0.24"
log = "0.4"
env_logger = "0.10"
pixels = "0.13"
winit = "0.28"
winit_input_helper = "0.14"
egui = "0.22"
egui-wgpu = "0.22"
egui-winit = { version = "0.22", default-features = false, features = ["links"] }
