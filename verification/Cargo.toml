[package]
name = "clock_timer"
version = "0.1.0"
edition = "2021"
publish = false

[dependencies]
chrono = { version = "=0.4.45", default-features = false, features = ["clock"] }
eframe = { version = "=0.36.2", default-features = false, features = ["glow", "x11", "default_fonts"] }
egui = "=0.36.2"
rodio = { version = "=0.22.2", default-features = false, features = ["playback", "mp3"] }
rust-embed = "=8.12.0"
