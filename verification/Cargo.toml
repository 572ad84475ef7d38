[package]
name = "dsa5_analyzer"
version = "0.1.0"
edition = "2021"
publish = false

[dependencies]
anyhow = "1"
eframe = { version = "0.31", default-features = false, features = ["default_fonts", "glow", "x11"] }
egui_extras = { version = "0.31", default-features = false }
image = { version = "0.25", default-features = false, features = ["png", "jpeg", "gif", "webp"] }
reqwest = { version = "0.12", default-features = false, features = ["blocking"] }
rfd = "0.15"
serde = { version = "1", features = ["derive"] }
serde_json = "1"
