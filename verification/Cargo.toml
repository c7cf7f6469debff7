[package]
name = "shape_transition"
version = "0.1.0"
edition = "2021"

[dependencies]
bevy = { version = "=0.15.3", default-features = false, features = ["bevy_asset", "bevy_color", "bevy_core_pipeline", "bevy_render", "bevy_window"] }
