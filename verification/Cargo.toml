[package]
name = "urdf_bridge"
version = "0.1.0"
edition = "2021"
publish = false

[dependencies]
bevy = { version = "=0.15.3", default-features = false, features = ["bevy_asset", "bevy_pbr"] }
bevy_rapier3d = { version = "=0.29.0", default-features = false, features = ["dim3"] }
rapier3d = "=0.23.1"
rapier3d-urdf = "=0.4.0"
serde = { version = "=1.0.229", features = ["derive"] }
urdf-rs = "=0.9.1"
