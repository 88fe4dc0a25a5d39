[package]
name = "haalka"
version = "0.1.0"
edition = "2021"
publish = false

[dependencies]
bevy_time = "=0.17.3"
bevy_ecs = "=0.17.3"
bevy_platform = "=0.17.3"
futures-signals = "0.3"
