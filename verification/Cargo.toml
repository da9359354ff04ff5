[package]
name = "conmind"
version = "0.1.0"
edition = "2021"
publish = false

[dependencies]
bytemuck = { version = "1", features = ["derive"] }
colored = "*"
cpal = "*"
pollster = "*"
realfft = "3"
serde = { version = "1", features = ["derive"] }
toml = "*"
wgpu = "*"
windows-sys = { version = "*", features = ["Win32_System_Console"] }
winit = "*"
