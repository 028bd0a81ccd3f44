[package]
name = "chagaller"
version = "0.1.0"
edition = "2021"
publish = false

[dependencies]
chrono = "0.4"
clap = { version = "4", features = ["derive"] }
env_logger = "*"
image = { version = "0.25", default-features = false, features = ["jpeg"] }
kamadak-exif = "*"
log = "0.4"
minijinja = "2"
serde = { version = "1", features = ["derive"] }
serde_yml = "*"
