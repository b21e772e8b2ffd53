[package]
name = "leafwing_2d"
version = "0.1.0"
edition = "2021"
publish = false

[dependencies]
bevy_app = "=0.16.1"
bevy_ecs = "=0.16.1"
bevy_math = "=0.16.1"
bevy_transform = "=0.16.1"
derive_more = "=0.99.17"
