[package]
name = "jukebox"
version = "0.1.0"
edition = "2021"
publish = false

[dependencies]
eframe = { version = "=0.22.0", default-features = false, features = ["glow"] }
rodio = "=0.15.0"
