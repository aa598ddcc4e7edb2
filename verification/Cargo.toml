[package]
name = "music_visualizer"
version = "0.1.0"
edition = "2021"
publish = false

[dependencies]
bytemuck = { version = "1", features = ["derive"] }
image = { version = "0.25", default-features = false, features = ["png"] }
pollster = "0.3"
rustfft = "6"
serde = { version = "1", features = ["derive"] }
serde_json = "1"
wgpu = { version = "0.20", default-features = false, features = ["wgsl"] }
winit = { version = "0.30", default-features = false, features = ["rwh_06", "x11"] }
