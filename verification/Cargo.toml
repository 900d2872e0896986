[package]
name = "snog"
version = "0.1.0"
edition = "2021"
publish = false

[dependencies]
pollster = "=0.3.0"
vello = "=0.1.0"
wgpu = "0.19"
winit = { version = "=0.28.7", default-features = false, features = ["x11"] }
