[package]
name = "orbit_cursor"
version = "0.1.0"
edition = "2021"
publish = false

[dependencies]
ffmpeg-sidecar = "2"
uuid = { version = "1", features = ["v4"] }
fancy-regex = "*"
yuv = "*"
serde = { version = "1", features = ["derive"] }
serde_json = "1"
rmp-serde = "1"
chrono = "0.4"
