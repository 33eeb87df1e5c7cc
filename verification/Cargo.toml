[package]
name = "bevy_doors"
version = "0.1.0"
edition = "2021"
publish = false

[dependencies]
bevy = { version = "=0.18.1", default-features = false, features = ["std", "async_executor", "bevy_asset", "bevy_state", "bevy_window", "default_font", "bevy_render", "bevy_core_pipeline", "bevy_pbr", "bevy_ui", "bevy_text", "bevy_sprite", "bevy_mesh", "bevy_light", "bevy_camera", "bevy_color", "bevy_image"] }
