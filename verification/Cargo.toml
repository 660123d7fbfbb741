[package]
name = "sietor"
version = "0.1.0"
edition = "2021"
publish = false

[dependencies]
glium = "0.27"
glutin = "0.24"
gl = "0.14"
rusttype = { version = "0.9", features = ["gpu_cache"] }
syntect = { version = "4", default-features = false, features = ["default-fancy"] }
log = "0.4"
env_logger = "0.8"
failure = "0.1"
