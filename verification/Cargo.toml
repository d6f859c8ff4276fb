[package]
name = "screenshit"
version = "0.1.0"
edition = "2021"
publish = false

[dependencies]
ab_glyph = "0.2"
arboard = "3.4"
eframe = { version = "0.31", default-features = false, features = ["glow", "default_fonts", "x11"] }
egui = "0.31"
image = { version = "0.25", default-features = false, features = ["png", "jpeg", "bmp"] }
imageproc = { version = "0.25", default-features = false }
rfd = { version = "0.15", default-features = false, features = ["xdg-portal", "tokio"] }
