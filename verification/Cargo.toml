[package]
name = "dji_photo_coords"
version = "0.1.0"
edition = "2021"
publish = false

[dependencies]
kamadak-exif = "*"
csv = "*"
walkdir = "*"
