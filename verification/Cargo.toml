[package]
name = "files_please"
version = "0.1.0"
edition = "2021"
publish = false

[dependencies]
sdl3 = { version = "=0.20.0", features = ["ttf"] }

[dev-dependencies]
uuidv7 = "*"
