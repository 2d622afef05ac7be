[package]
name = "pogin"
version = "0.1.0"
edition = "2021"
publish = false

[dependencies]
oorandom = "11"
ggez = "0.7"
glam = "0.20"
