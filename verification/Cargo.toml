[package]
name = "chess_session"
version = "0.1.0"
edition = "2021"
publish = false

[dependencies]
chess = "=3.2.0"
ggez = { version = "=0.10.0", default-features = false }
rmp-serde = "=1.3.1"
