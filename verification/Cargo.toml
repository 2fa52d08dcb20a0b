[package]
name = "rust_game_engine"
version = "0.1.0"
edition = "2021"
publish = false

[dependencies]
slab = "0.4"
anyhow = "1"
bytemuck = { version = "1", features = ["derive"] }
cgmath = "0.18"
env_logger = "0.8"
futures = "0.3"
hecs = "*"
image = "0.23"
log = "0.4"
ron = "0.6"
serde = { version = "1", features = ["derive"] }
spin_sleep = "1"
wgpu = "0.8"
winit = "0.25"
