[package]
name = "vello"
version = "0.8.0"
edition = "2021"
publish = false

[dependencies]
bytemuck = { version = "1", features = ["derive"] }
wgpu = "29"
