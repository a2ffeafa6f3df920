[package]
name = "webbing"
version = "0.1.0"
edition = "2021"
publish = false

[dependencies]
avian2d = { version = "0.3", default-features = false, features = ["2d", "f32", "parry-f32"] }
bevy = { version = "0.16", default-features = false, features = ["std", "bevy_asset", "bevy_color", "bevy_core_pipeline", "bevy_render", "bevy_sprite", "bevy_window"] }
bevy-tnua = { version = "0.24", default-features = false }
bevy-tnua-avian2d = { version = "0.5", default-features = false }
