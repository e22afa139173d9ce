[package]
name = "batpet"
version = "0.1.0"
edition = "2021"
publish = false

[dependencies]
crossterm = "=0.29.0"
bevy = { version = "=0.19.1", default-features = false, features = ["std", "async_executor", "multi_threaded", "bevy_asset", "bevy_log", "bevy_state", "bevy_window", "bevy_winit", "x11", "bevy_render", "bevy_core_pipeline", "bevy_camera", "bevy_sprite", "bevy_sprite_render", "bevy_color", "bevy_image", "png"] }
