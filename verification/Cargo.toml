[package]
name = "cupid_unleashed_backend"
version = "0.1.0"
edition = "2021"
publish = false

[dependencies]
android_logger = "*"
android_system_properties = "*"
log = "*"
