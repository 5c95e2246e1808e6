[package]
name = "agon_bus"
version = "0.1.0"
edition = "2021"
publish = false

[dependencies]
iz80 = "=0.5.1"
sdl2 = "=0.38.0"
serialport = { version = "=4.10.1", default-features = false }
