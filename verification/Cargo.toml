[package]
name = "dodge_game"
version = "0.1.0"
edition = "2021"
publish = false

[dependencies]
rand = "0.7"
piston_window = "*"
stopwatch = "*"
carboxyl = "*"
