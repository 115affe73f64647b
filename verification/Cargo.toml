[package]
name = "snake_game"
version = "0.1.0"
edition = "2021"
publish = false

[dependencies]
bevy = { version = "0.14", default-features = false }
dotenv = "0.15"
rand = "0.8"
