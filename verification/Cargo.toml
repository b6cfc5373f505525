[package]
name = "slots_from_hell"
version = "0.1.0"
edition = "2021"
publish = false
rust-version = "1.95"

[dependencies]
bevy_northstar = { version = "=0.7.0", default-features = false }
bevy = { version = "=0.19.1", default-features = false, features = ["std", "default_app", "bevy_sprite", "bevy_text", "bevy_ui", "bevy_camera", "bevy_color", "bevy_image", "bevy_mesh", "bevy_shader", "bevy_material", "bevy_window", "bevy_render", "bevy_core_pipeline", "bevy_sprite_render", "bevy_ui_render", "default_font", "bevy_dev_tools"] }
