[package]
name = "powerbaby"
version = "0.1.0"
edition = "2021"
publish = false

[dependencies]
anyhow = "=1.0.104"
bevy = { version = "=0.10.1", default-features = false, features = ["bevy_asset", "bevy_scene", "bevy_render", "bevy_pbr", "bevy_core_pipeline", "bevy_ui", "bevy_text", "bevy_gltf", "png"] }
bevy-debug-text-overlay = "5"
bevy_rapier3d = "=0.21.0"
bevy_turborand = "=0.5.0"
clap = { version = "=4.6.7", features = ["derive"] }
iyes_progress = "=0.8.1"
js-sys = "=0.3.107"
log = "=0.4.35"
wasm-bindgen = "=0.2.130"
web-sys = { version = "=0.3.72", features = ["Window"] }
