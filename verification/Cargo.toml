[package]
name = "chip8"
version = "0.1.0"
edition = "2021"
publish = false

[dependencies]
clap = "3"
rand = "0.8"
sdl2 = "0.35"
