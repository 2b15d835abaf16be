[package]
name = "photonforge"
version = "0.1.0"
edition = "2021"
publish = false

[dependencies]
anyhow = "1"
bytemuck = { version = "1", features = ["derive"] }
glam = "0.25"
pollster = "0.3"
wgpu = { version = "0.19", default-features = false, features = ["wgsl"] }
