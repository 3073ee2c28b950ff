[package]
name = "gchess"
version = "0.1.0"
edition = "2021"
publish = false

[dependencies]
chess = "*"
glow = "*"
imgui = "*"
imgui-glow-renderer = "*"
imgui-sdl2-support = "*"
sdl2 = "*"
serde = { version = "*", features = ["derive"] }
serde_json = "*"
