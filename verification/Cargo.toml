[package]
name = "vector_image"
version = "0.1.0"
edition = "2021"
publish = false

[dependencies]
usvg = { version = "*", default-features = false }
raqote = { version = "*", default-features = false }
