[package]
name = "mouse2joy"
version = "0.1.0"
edition = "2021"
publish = false

[dependencies]
evdev = "0.12"
log = "0.4"
env_logger = "0.10"
thiserror = "1"
