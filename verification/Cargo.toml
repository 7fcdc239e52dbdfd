[package]
name = "windowed_term"
version = "0.1.0"
edition = "2021"
publish = false

[dependencies]
bevy = { version = "0.17", default-features = false, features = ["bevy_window", "bevy_asset", "bevy_image"] }
