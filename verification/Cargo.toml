[package]
name = "lazarobox_img"
version = "0.1.0"
edition = "2021"
publish = false

[dependencies]
anyhow = "*"
clap = { version = "*", features = ["derive"] }
crossterm = "*"
kamadak-exif = "*"
little_exif = "*"
ratatui = "*"
walkdir = "*"
image = { version = "*", default-features = false, features = ["jpeg", "png", "webp", "bmp", "tiff"] }
webp = "*"
