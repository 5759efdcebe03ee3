[package]
name = "dot-engine"
version = "0.1.0"
edition = "2021"
publish = false

[dependencies]
vulkano = "0.34"
winit = { version = "0.29", features = ["rwh_05"] }
spirv-std = "0.9"
