[package]
name = "space_boss_battles"
version = "0.1.0"
edition = "2021"
publish = false

[dependencies]
time = "=0.1.45"
rand = "=0.3.23"
cgmath = "=0.15.0"
image = "=0.15.0"
sdl2 = { version = "0.30", features = ["mixer"] }
