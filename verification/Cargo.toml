[package]
name = "kb_engine"
version = "0.1.0"
edition = "2021"
publish = false

[dependencies]
anyhow = "1"
bytemuck = { version = "1", features = ["derive"] }
cgmath = "0.18"
getrandom = "0.2"
image = { version = "0.24", default-features = false, features = ["png", "jpeg"] }
instant = "0.1"
json = "0.12"
wgpu = { version = "0.20", default-features = false, features = ["wgsl"] }
