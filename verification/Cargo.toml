[package]
name = "emojid"
version = "0.1.0"
edition = "2021"
publish = false

[dependencies]
arboard = { version = "=3.7.0", default-features = false }
dirs = "=5.0.1"
eframe = { version = "0.24", default-features = false, features = ["default_fonts", "glow", "x11"] }
serde = { version = "=1.0.229", features = ["derive"] }
toml = "=0.8.23"
