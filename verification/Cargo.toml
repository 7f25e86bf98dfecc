[package]
name = "lang_demos"
version = "0.1.0"
edition = "2021"
publish = false

[dependencies]
bumpalo = "*"
