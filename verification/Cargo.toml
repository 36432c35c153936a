[package]
name = "sdl3_pixels"
version = "0.1.0"
edition = "2021"
publish = false

[dependencies]
libc = "=0.2.191"
sdl3-sys = { version = "=0.7.2", default-features = false, features = ["no-link"] }
