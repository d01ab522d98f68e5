[package]
name = "loop-timer"
version = "0.1.0"
edition = "2021"
publish = false

[dependencies]
dirs = "=5.0.1"
gtk4 = "=0.9.7"
ksni = { version = "=0.3.7", features = ["blocking"] }
notify = "=6.1.1"
serde = { version = "=1.0.229", features = ["derive"] }
toml = "=0.8.23"
