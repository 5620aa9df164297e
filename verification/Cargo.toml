[package]
name = "bevy_retro"
version = "0.1.0"
edition = "2021"
publish = false

[dependencies]
bevy = { version = "=0.5.0", default-features = false, features = ["bevy_winit", "x11"] }
raui = { version = "=0.38.4", features = ["material", "tesselate"] }
kira = "=0.5.3"
