[package]
name = "chip8_lib"
version = "0.1.0"
edition = "2021"
publish = false

[dependencies]
rand = "0.8"
minifb = "0.25"
rodio = { version = "0.17", default-features = false, features = ["wav"] }
sdl2 = "0.35"
