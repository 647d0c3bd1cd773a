[package]
name = "directory_layout"
version = "0.1.0"
edition = "2021"
publish = false

[dependencies]
printpdf = { version = "0.7", features = ["embedded_images"] }
