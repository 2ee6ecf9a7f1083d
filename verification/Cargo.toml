[package]
name = "blairpng"
version = "0.1.0"
edition = "2021"
publish = false

[dependencies]
anyhow = "*"
clap = { version = "*", features = ["derive"] }
indexmap = "*"
indicatif = "*"
oxipng = "=9.1.5"
rayon = "*"
serde = { version = "*", features = ["derive"] }
toml = "*"
