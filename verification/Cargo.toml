[package]
name = "rocket_syntaxes"
version = "0.1.0"
edition = "2021"
publish = false

[dependencies]
normpath = "1"
rocket = "0.5"
syntect = { version = "5", default-features = false, features = ["default-fancy"] }
