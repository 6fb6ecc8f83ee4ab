[package]
name = "wasting_time"
version = "0.1.0"
edition = "2021"
publish = false

[dependencies]
bevy = { version = "=0.6.1", default-features = false, features = ["bevy_winit", "render", "png", "x11"] }
bevy_asset_loader = { version = "=0.9.0" }
bevy_rapier2d = { version = "=0.12.1" }
rapier2d = { version = "=0.12.0-alpha.0" }
