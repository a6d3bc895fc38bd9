[package]
name = "tada"
version = "0.1.0"
edition = "2021"
publish = false

[dependencies]
anyhow = "1"
chumsky = "0.8"
clap = { version = "4", features = ["derive"] }
nom = "7"
pretty = "0.11"
tempfile = "3"
