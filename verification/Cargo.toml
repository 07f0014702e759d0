[package]
name = "lifecycle_sync"
version = "0.1.0"
edition = "2021"
publish = false

[dependencies]
raw-window-handle = "=0.4.3"
bevy = { version = "=0.7.0", default-features = false, features = ["render", "bevy_gltf", "bevy_audio", "bevy_gilrs"] }
