[package]
name = "vkboot"
version = "0.1.0"
edition = "2021"
publish = false

[dependencies]
anyhow = "*"
log = "*"
pretty_env_logger = "*"
vulkanalia = { version = "*", features = ["libloading", "window"] }
winit = "*"
