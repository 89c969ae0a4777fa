[package]
name = "boids"
version = "0.1.0"
edition = "2021"
publish = false

[dependencies]
bytemuck = { version = "=1.25.2", features = ["derive"] }
env_logger = { version = "=0.11.11", default-features = false }
log = "=0.4.34"
rand = "=0.9.5"
wgpu = { version = "=22.1.0", default-features = false, features = ["wgsl"] }
winit = { version = "0.30", default-features = false, features = ["rwh_06", "x11"] }
