[package]
name = "thumbnailer"
version = "0.1.0"
edition = "2021"
publish = false

[dependencies]
image = { version = "0.25", default-features = false, features = ["png", "jpeg"] }
imageproc = { version = "0.25", default-features = false }
ab_glyph = "0.2"
serde = { version = "1", features = ["derive"] }
serde_json = "1"
