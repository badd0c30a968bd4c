[package]
name = "scene_core"
version = "0.1.0"
edition = "2021"
publish = false

[dependencies]
anyhow = "1"
bytemuck = { version = "1", features = ["derive"] }
cgmath = "0.18"
env_logger = { version = "0.11", default-features = false }
futures = "0.3"
log = "0.4"
tobj = { version = "4", features = ["async"] }
winit = { version = "0.29", default-features = false, features = ["x11"] }
