[package]
name = "app_container"
version = "0.1.0"
edition = "2021"
publish = false

[dependencies]
bevy_ecs = "0.5"
bevy_utils = "0.5"
bevy = { version = "0.5", default-features = false, features = ["bevy_winit", "render"] }
bevy_webgl2 = "0.5"
wasm-bindgen = "0.2"
