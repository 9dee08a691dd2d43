[package]
name = "notepad_r"
version = "0.1.0"
edition = "2021"
publish = false

[dependencies]
dirs = "6"
eframe = { version = "0.31", default-features = false, features = ["default_fonts", "glow", "x11"] }
egui_extras = { version = "0.31", default-features = false }
env_logger = { version = "0.11", default-features = false }
log = "0.4"
rfd = "0.15"
serde = { version = "1", features = ["derive"] }
serde_json = "1"
