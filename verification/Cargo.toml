[package]
name = "hotkey_overlay"
version = "0.1.0"
edition = "2021"
publish = false

[dependencies]
device_query = "*"
eframe = { version = "*", default-features = false, features = ["glow", "x11"] }
