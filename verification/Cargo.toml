[package]
name = "input_viz_key"
version = "0.1.0"
edition = "2021"
publish = false

[dependencies]
rdev = "*"
serde = { version = "*", features = ["derive"] }
tauri = { version = "*", default-features = false, features = ["tray-icon"] }
