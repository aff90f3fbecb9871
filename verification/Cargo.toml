[package]
name = "rusnake"
version = "0.1.0"
edition = "2021"
publish = false

[dependencies]
rand = "*"
piston_window = "*"
