[package]
name = "bomberman"
version = "0.1.0"
edition = "2021"
publish = false

[dependencies]
amethyst = { version = "0.15", default-features = false, features = ["renderer", "empty"] }
log = "0.4"
