[package]
name = "webcam_workspace"
version = "0.1.0"
edition = "2021"
publish = false

[dependencies]
rayon = "1.12.0"
eframe = { version = "0.37.0", default-features = false, features = ["glow", "x11", "default_fonts"] }
nokhwa = { version = "0.10.11", features = ["input-native"] }
