[package]
name = "asteroids_core"
version = "0.1.0"
edition = "2021"
publish = false

[dependencies]
bevy = { version = "0.9", default-features = false, features = ["bevy_asset", "bevy_winit", "bevy_core_pipeline", "bevy_render", "bevy_sprite", "bevy_text", "png", "x11"] }
bevy-debug-text-overlay = "4.0"
bevy_embedded_assets = "0.6"
console_error_panic_hook = "0.1"
rand = "0.8"
