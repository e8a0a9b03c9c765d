[package]
name = "editor_link"
version = "0.1.0"
edition = "2021"
publish = false

[dependencies]
ash = "=0.38.0"
bevy = { version = "=0.19.1", default-features = false, features = ["bevy_window", "bevy_render", "bevy_log"] }
bevy_window = { version = "=0.19.1", features = ["serialize"] }
ipc-channel = "=0.20.2"
postcard = { version = "=1.1.3", default-features = false, features = ["alloc"] }
rand = "=0.9.5"
rustix = { version = "=1.1.6", features = ["process"] }
serde = { version = "=1.0.229", features = ["derive"] }
serde_json = "=1.0.154"
thiserror = "=2.0.21"
wgpu = { version = "=29.0.4", default-features = false, features = ["std", "vulkan"] }
