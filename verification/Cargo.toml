[package]
name = "fractal_viewer"
version = "0.1.0"
edition = "2021"
publish = false

[dependencies]
notify = "4"
log = "0.4"
env_logger = "0.11"
lazy_static = "1"
zerocopy = { version = "0.7", features = ["derive"] }
