[package]
name = "woro"
version = "0.1.0"
edition = "2021"
publish = false

[dependencies]
rand = "=0.8.8"
serde = { version = "=1.0.229", features = ["derive"] }
serde_json = "=1.0.154"
rfd = "=0.14.1"
eframe = { version = "0.24", default-features = false, features = ["default_fonts", "glow", "x11"] }
