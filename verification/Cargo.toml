[package]
name = "pong_sim"
version = "0.1.0"
edition = "2021"
publish = false

[dependencies]
bevy = { version = "0.16", default-features = false, features = ["std", "bevy_sprite", "bevy_winit", "x11"] }
rand = "0.9"
