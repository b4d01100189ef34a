[package]
name = "cp_cli"
version = "0.1.0"
edition = "2021"
publish = false

[dependencies]
anyhow = "*"
clap = { version = "*", features = ["derive"] }
console = "*"
dialoguer = "*"
indicatif = "*"

[dev-dependencies]
serde_json = "*"
