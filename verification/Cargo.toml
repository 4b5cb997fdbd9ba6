[package]
name = "ascii_art"
version = "0.1.0"
edition = "2021"
publish = false

[dependencies]
image = { version = "=0.25.10", default-features = false, features = ["png", "jpeg", "bmp", "dds", "exr", "ff", "gif", "hdr", "ico", "pnm", "qoi", "tga", "tiff", "webp"] }
rand = "=0.10.3"
clap = "=4.6.7"
