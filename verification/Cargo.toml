[package]
name = "dqn"
version = "0.1.0"
edition = "2021"
publish = false

[dependencies]
anyhow = "1"
base64 = "0.22"
crossterm = { version = "0.29", features = ["event-stream"] }
futures-util = "0.3"
image = { version = "0.25", default-features = false, features = ["bmp", "gif", "jpeg", "png", "webp"] }
netease-qq-music-api = "*"
qrcode = "0.14"
ratatui = "*"
reqwest = { version = "*", features = ["stream"] }
rqrr = "*"
serde = { version = "1", features = ["derive"] }
serde_json = "1"
tokio = { version = "1", features = ["full"] }
