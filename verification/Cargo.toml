[package]
name = "squarebob"
version = "0.1.0"
edition = "2021"
publish = false

[dependencies]
wgpu = "*"
uuid = { version = "1", features = ["v4", "serde"] }
serde = { version = "1", features = ["derive"] }
serde_json = "1"
glam = "*"
bytemuck = { version = "1", features = ["derive"] }
half = "2"
log = "0.4"
anyhow = "1"
pollster = "*"
image = { version = "*", default-features = false, features = ["hdr"] }
