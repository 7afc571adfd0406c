[package]
name = "ecosistema"
version = "0.1.0"
edition = "2021"
publish = false

[dependencies]
rand = "=0.10.3"
macroquad = { version = "=0.4.16", features = ["audio"] }
