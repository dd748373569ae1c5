[package]
name = "essentialscode"
version = "0.2.0"
edition = "2021"
publish = false

[dependencies]
anyhow = "1"
clap = { version = "4", features = ["derive"] }
dirs = "5"
owo-colors = "4"
regex = "1"
serde = { version = "1", features = ["derive"] }
toml = "0.8"
walkdir = "2"
