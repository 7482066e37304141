[package]
name = "pattern_mixer"
version = "0.1.0"
edition = "2021"
publish = false

[dependencies]
bevy = { version = "=0.15.3", default-features = false, features = ["bevy_asset", "bevy_render", "bevy_core_pipeline", "bevy_sprite", "bevy_gltf", "bevy_window", "bevy_winit", "png", "x11"] }
