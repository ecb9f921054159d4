[package]
name = "contourwall_core"
version = "0.1.0"
edition = "2021"
publish = false

[dependencies]
serialport = { version = "4", default-features = false }
rayon = "1"
ndarray = "0.15"
log = "0.4"
env_logger = "0.11"
