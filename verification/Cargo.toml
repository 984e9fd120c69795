[package]
name = "pomo-oxide"
version = "0.1.0"
edition = "2021"
publish = false

[dependencies]
directories = "=6.0.0"
log = "=0.4.34"
playback-rs = "0.2.5"
relm4 = "=0.6.2"
relm4-components = "=0.6.2"
serde = { version = "=1.0.229", features = ["derive"] }
serde_json = "=1.0.154"
simple_logger = "=5.2.0"
