[package]
name = "ai-quick-access"
version = "0.1.0"
edition = "2021"
publish = false

[dependencies]
dirs = "*"
mouse_position = "*"
serde = { version = "1", features = ["derive"] }
serde_json = "1"
window-vibrancy = "*"
