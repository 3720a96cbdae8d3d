[package]
name = "blazingwebp"
version = "0.1.0"
edition = "2021"
publish = false

[dependencies]
anyhow = "1"
fast_image_resize = "5"
image = "0.25"
rayon = "1"
serde = { version = "1", features = ["derive"] }
webp = "0.3"
