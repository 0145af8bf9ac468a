[package]
name = "modelers"
version = "0.1.0"
edition = "2021"
publish = false

[dependencies]
png = "=0.17.16"
bytemuck = { version = "=1.25.2", features = ["derive"] }
cgmath = "=0.18.0"
wgpu = "=0.12.0"
winit = "=0.26.1"
env_logger = "=0.9.3"
futures = "=0.3.34"
log = "=0.4.34"
