[package]
name = "arula"
version = "0.1.0"
edition = "2021"
publish = false

[dependencies]
regex = "*"
globset = "*"
crossterm = "*"
serde = { version = "*", features = ["derive"] }
serde_yaml = "*"
anyhow = "*"
console = "*"
clap = { version = "*", features = ["derive"] }
duct = "*"
chrono = "*"
