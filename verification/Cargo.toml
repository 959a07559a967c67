[package]
name = "zcblive"
version = "0.1.0"
edition = "2021"
publish = false

[dependencies]
anyhow = "=1.0.104"
fastrand = "=2.5.0"
kittyaudio = { version = "=0.2.0", default-features = false, features = ["symphonia"] }
log = "=0.4.34"
once_cell = "=1.21.4"
serde = { version = "=1.0.229", features = ["derive"] }
serde_json = "=1.0.151"
simple_logger = "=5.2.0"
