[package]
name = "frame_compare"
version = "0.1.0"
edition = "2021"
publish = false

[dependencies]
anyhow = "*"
bytemuck = { version = "*", features = ["derive"] }
cgmath = "*"
derive_builder = "*"
vulkanalia = "*"
