[package]
name = "shiny_song_tools"
version = "0.1.0"
edition = "2021"
publish = false

[dependencies]
bevy_ecs = "*"
crossbeam-queue = "*"
crossbeam-utils = "*"
il2cpp-bridge-rs = "*"
libc = "*"
serde = { version = "1", features = ["derive"] }
serde_json = "1"
thiserror = "2"
toml = "*"
tracing = "0.1"
tracing-os-layer = "*"
tracing-subscriber = "0.3"
