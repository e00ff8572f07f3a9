[package]
name = "bevy_sonus"
version = "0.1.0"
edition = "2021"
publish = false

[dependencies]
bevy = { version = "=0.19.1", default-features = false, features = ["bevy_audio", "wav", "bevy_camera", "bevy_gizmos", "bevy_color"] }
rodio = { version = "=0.22.2", default-features = false, features = ["wav"] }
hound = "=3.5.1"
