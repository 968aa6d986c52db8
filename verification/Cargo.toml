[package]
name = "committer"
version = "0.1.0"
edition = "2021"

[dependencies]
dialoguer = "*"
dirs = "*"
serde = { version = "*", features = ["derive"] }
toml = "*"
