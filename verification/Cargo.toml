[package]
name = "ball_game"
version = "0.1.0"
edition = "2021"
publish = false

[dependencies]
bevy = { version = "=0.15.3", default-features = false, features = ["bevy_asset", "bevy_audio", "bevy_core_pipeline", "bevy_render", "bevy_sprite", "bevy_window", "png", "vorbis"] }
rand = "=0.8.8"
