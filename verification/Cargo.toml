[package]
name = "bevy_serialization_urdf"
version = "0.1.0"
edition = "2021"
publish = false

[dependencies]
bevy_app = "=0.20.0"
bevy_asset = "=0.20.0"
bevy_ecs = "=0.20.0"
bevy_egui = { version = "*", default-features = false }
bevy_math = "=0.20.0"
bevy_reflect = "=0.20.0"
bevy_transform = "=0.20.0"
bevy_window = "=0.20.0"
strum = { version = "*", features = ["derive"] }
urdf-rs = "=0.10.0"

[dev-dependencies]
glam = "=0.34.1"
