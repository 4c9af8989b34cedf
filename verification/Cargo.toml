[package]
name = "card_battle"
version = "0.1.0"
edition = "2021"
publish = false

[dependencies]
bevy = { version = "=0.7.0", default-features = false, features = ["render", "bevy_winit", "png", "x11"] }
bevy_easings = "=0.7.0"
tracing = "=0.1.37"
tracing-attributes = "=0.1.23"
