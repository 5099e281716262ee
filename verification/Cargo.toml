[package]
name = "voxel_mesh"
version = "0.1.0"
edition = "2021"
publish = false

[dependencies]
wavefront_obj = "=11.0.0"
nalgebra = "=0.35.0"
bevy = { version = "0.18", default-features = false, features = ["std", "bevy_asset", "bevy_mesh"] }
