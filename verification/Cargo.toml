[package]
name = "notes_cli"
version = "0.1.0"
edition = "2021"
publish = false

[dependencies]
clap = { version = "4", features = ["derive"] }
dirs = "*"
jiff = "*"
regex = "1"
serde = { version = "1", features = ["derive"] }
toml = "*"
