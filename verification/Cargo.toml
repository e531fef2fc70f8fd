[package]
name = "dot_wars"
version = "0.1.0"
edition = "2021"
publish = false

[dependencies]
uuid = { version = "1", features = ["v4", "serde"] }
serde = { version = "1", features = ["derive"] }
bevy = { version = "0.14", default-features = false, features = ["bevy_state", "bevy_color", "bevy_asset"] }
