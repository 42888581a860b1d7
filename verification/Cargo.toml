[package]
name = "carrion_eris"
version = "0.1.0"
edition = "2021"
publish = false

[dependencies]
rand = "=0.8.8"
heck = "=0.4.1"
crossterm = "=0.27.0"
random_word = { version = "=0.4.3", features = ["en"] }
serde = { version = "=1.0.229", features = ["derive"] }
serde_json = "=1.0.154"
dashmap = "5"
