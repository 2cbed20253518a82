[package]
name = "holy_bullet_hell"
version = "0.1.0"
edition = "2021"
publish = false

[dependencies]
cgmath = "=0.18.0"
env_logger = { version = "=0.11.11", default-features = false }
image = { version = "=0.25.10", default-features = false, features = ["png"] }
num = "=0.4.3"
pixels = "0.15"
smol_str = "=0.2.2"
winit = { version = "=0.30.13", default-features = false, features = ["rwh_06", "x11"] }
