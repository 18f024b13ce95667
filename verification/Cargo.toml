[package]
name = "bevy_doryen"
version = "0.1.0"
edition = "2021"
publish = false

[dependencies]
doryen-rs = "=1.3.0"
bevy_app = "=0.9.1"
bevy_ecs = "=0.9.1"
