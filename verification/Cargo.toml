[package]
name = "snake_game"
version = "0.1.0"
edition = "2021"

[dependencies]
find_folder = "*"
piston_window = "*"
rand = "*"
