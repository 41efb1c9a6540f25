[package]
name = "platformer"
version = "0.1.0"
edition = "2021"
publish = false

[dependencies]
colored = "2"
notify = "4"
png = "0.16"
sdl2 = "0.35"
