[package]
name = "rusty_ship"
version = "0.1.0"
edition = "2021"
publish = false

[dependencies]
rand = "0.8"
macroquad = "0.4"
serde = { version = "1", features = ["derive"] }
serde_json = "1"
bincode = "1"
