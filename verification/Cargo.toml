[package]
name = "frame_pipeline"
version = "0.1.0"
edition = "2021"
publish = false

[dependencies]
anyhow = "1"
fast_image_resize = "2"
minifb = "0.25"
nokhwa = { version = "0.10", features = ["input-native"] }
opencv = "*"
