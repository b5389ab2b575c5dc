[package]
name = "doodle"
version = "0.1.0"
edition = "2021"
publish = false

[dependencies]
fps_clock = "*"
sdl2 = "*"
