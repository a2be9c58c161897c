[package]
name = "svg2png"
version = "0.1.0"
edition = "2021"
publish = false

[dependencies]
resvg = { version = "=0.48.1", default-features = false, features = ["text", "system-fonts", "memmap-fonts"] }
eframe = { version = "=0.36.2", default-features = false, features = ["glow", "x11", "default_fonts"] }
