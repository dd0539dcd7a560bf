[package]
name = "yawngf"
version = "0.1.0"
edition = "2021"
publish = false

[dependencies]
getset = "0.1"
thiserror = "1"
wgpu = "0.16"
winit = "0.28"
