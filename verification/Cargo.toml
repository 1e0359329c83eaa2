[package]
name = "text_editor"
version = "0.1.0"
edition = "2021"
publish = false

[dependencies]
array-init = "*"
lerp = "*"
parking_lot = "*"
rayon = "*"
sdl2 = { version = "0.35", features = ["image", "ttf"] }
serde-hjson = "0.9.1"
spin_sleep = "*"

[dev-dependencies]
regex = "*"
