[package]
name = "snake_ggez"
version = "0.1.0"
edition = "2021"
publish = false

[dependencies]
getrandom = "0.2"
ggez = { version = "0.9", default-features = false }
oorandom = "11.1"
