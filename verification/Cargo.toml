[package]
name = "mini_sdl"
version = "0.1.0"
edition = "2021"
publish = false

[dependencies]
smooth-buffer = "=0.3.2"
padstate = "=0.2.5"
sdl3 = { version = "=0.20.0", features = ["unsafe_textures"] }
