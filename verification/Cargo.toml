[package]
name = "gamess9"
version = "0.1.0"
edition = "2021"
publish = false

[dependencies]
bevy = { version = "0.9", default-features = false, features = ["bevy_asset", "bevy_scene"] }
bevy_ecs = "0.9"
bevy_reflect = "0.9"
bevy_vulkano = "0.11"
bytemuck = { version = "1", features = ["derive"] }
filetime = "0.2"
regex = "1"
vulkano = "0.32"
vulkano-util = "0.32"
vulkano-win = "0.32"
winit = "0.27"
