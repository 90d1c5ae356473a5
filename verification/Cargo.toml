[package]
name = "chipo"
version = "0.1.0"
edition = "2021"
publish = false

[dependencies]
rand = "=0.8.8"
log = "=0.4.34"
env_logger = "=0.10.2"
egui = { version = "=0.22.0", default-features = false }
winit = { version = "0.28", default-features = false, features = ["x11"] }
pixels = "0.13"
