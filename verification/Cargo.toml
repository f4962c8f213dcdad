[package]
name = "bevy_stealth"
version = "0.1.0"
edition = "2021"
publish = false

[dependencies]
bevy = { version = "=0.14.2", default-features = false }
avian3d = { version = "0.1", default-features = false, features = ["3d", "f32", "parry-f32"] }
rand = "=0.8.8"
