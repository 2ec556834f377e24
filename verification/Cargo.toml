[package]
name = "hop"
version = "0.1.0"
edition = "2021"
publish = false

[dependencies]
clap = { version = "4", features = ["derive"] }
colored = "*"
csv = "1"
dirs = "*"
serde = { version = "1", features = ["derive"] }
