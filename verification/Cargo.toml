[package]
name = "kime_indicator"
version = "0.1.0"
edition = "2021"
publish = false

[dependencies]
anyhow = "=1.0.104"
ksni = { version = "=0.3.6", features = ["blocking"] }
log = "=0.4.34"
serde = { version = "=1.0.229", features = ["derive"] }
serde_yaml = "=0.9.34"
xdg = "=3.0.0"
