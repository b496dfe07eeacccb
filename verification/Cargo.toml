[package]
name = "dirclip"
version = "0.1.0"
edition = "2021"
publish = false

[dependencies]
mime_guess = "*"
rayon = "*"
anyhow = "*"
clap = { version = "*", features = ["derive"] }
clipboard = "*"
log = "*"
simple_logger = "*"
walkdir = "*"
