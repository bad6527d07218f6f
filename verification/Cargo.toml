[package]
name = "avif_convert"
version = "0.1.0"
edition = "2021"
publish = false

[dependencies]
image = { version = "*", features = ["avif", "png"] }
clap = { version = "*", features = ["derive"] }
thiserror = "*"
