[package]
name = "bevy_ambisonic"
version = "0.1.0"
edition = "2021"
publish = false

[dependencies]
ambisonic = "*"
anyhow = "*"
bevy = { version = "=0.5.0", default-features = false }
glam = { version = "*", features = ["bytemuck"] }
bytemuck = "*"
