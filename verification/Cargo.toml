[package]
name = "vid2mp3"
version = "0.1.0"
edition = "2021"
publish = false

[dependencies]
eframe = { version = "*", default-features = false, features = ["glow", "x11", "default_fonts"] }
image = { version = "*", default-features = false, features = ["ico", "jpeg", "png"] }
rfd = { version = "*", default-features = false, features = ["xdg-portal", "tokio"] }
tokio = { version = "*", features = ["process", "rt-multi-thread"] }
