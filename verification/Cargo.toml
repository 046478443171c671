[package]
name = "nabu"
version = "0.1.0"
edition = "2021"
publish = false

[dependencies]
chrono = "*"
clap = { version = "*", features = ["derive"] }
ctrlc = "*"
flexi_logger = "*"
git2 = "*"
log = "*"
notify = "*"
serde = { version = "*", features = ["derive"] }
toml = "*"
walkdir = "*"
