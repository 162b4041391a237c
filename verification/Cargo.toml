[package]
name = "carplay_audio"
version = "0.1.0"
edition = "2021"
publish = false

[dependencies]
base64 = "0.22"
alsa = "0.9"
anyhow = "1"
axum = { version = "0.8", features = ["ws"] }
bluer = { version = "0.17", features = ["bluetoothd"] }
crossbeam-channel = "0.5"
crossterm = "0.28"
dbus = "0.9"
futures-util = "0.3"
libc = "0.2"
ratatui = "0.29"
serde = { version = "1", features = ["derive"] }
serde_json = "1"
tokio = { version = "1", features = ["full"] }
uuid = "1"
