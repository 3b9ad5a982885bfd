[package]
name = "gorb_transporter"
version = "0.1.0"
edition = "2021"
publish = false

[dependencies]
rand = "=0.9.5"
noise = "=0.9.0"
bevy_rand = { version = "0.11", features = ["wyrand"] }
bevy = { version = "0.16", default-features = false, features = ["std", "bevy_asset", "bevy_sprite", "bevy_text", "bevy_ui", "bevy_state", "bevy_window"] }
