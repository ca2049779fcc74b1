[package]
name = "ico2img"
version = "0.1.0"
edition = "2021"
publish = false

[dependencies]
anyhow = "1"
clap = { version = "4", features = ["derive"] }
ico = "0.3"
image = { version = "0.25", default-features = false, features = ["png", "jpeg", "bmp", "webp"] }
log = "0.4"
simple_logger = "4"
toml = "0.8"
