[package]
name = "visbuffer"
version = "0.1.0"
edition = "2021"
publish = false

[dependencies]
bevy_app = "0.16"
bevy_asset = "0.16"
bevy_ecs = "0.16"
bevy_math = "0.16"
bevy_render = "0.16"
bevy_transform = "0.16"
tracing = "0.1"
