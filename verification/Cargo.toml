[package]
name = "png2jp2"
version = "0.1.0"
edition = "2021"
publish = false

[dependencies]
openjp2 = "*"
image = { version = "0.25", default-features = false, features = ["png", "jpeg", "gif", "bmp", "tiff", "webp"] }
clap = { version = "4", features = ["derive"] }
libc = "0.2"
