[package]
name = "bevy_ufbx"
version = "0.1.0"
edition = "2021"
publish = false

[dependencies]
ufbx = "*"
bevy = { version = "0.17", default-features = false, features = ["std", "bevy_asset", "bevy_pbr", "bevy_scene"] }
thiserror = "2"
serde = { version = "1", features = ["derive"] }
