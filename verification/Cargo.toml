[package]
name = "sozu"
version = "0.1.0"
edition = "2021"
publish = false

[dependencies]
rand = "=0.8.8"
hex = "=0.4.3"
anyhow = "=1.0.104"
prettytable-rs = "=0.10.0"
termion = "=1.5.6"
serde = { version = "=1.0.229", features = ["derive"] }
serde_json = "1"
log = "0.4"
