[package]
name = "wixe"
version = "0.1.0"
edition = "2021"
publish = false

[dependencies]
env_logger = "0.10"
pixels = "0.11"
rusttype = "0.9"
winit = "0.27"
