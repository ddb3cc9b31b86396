[package]
name = "tomatl"
version = "0.1.0"
edition = "2021"
publish = false

[dependencies]
chrono = "*"
clap = { version = "*", features = ["derive"] }
colored = "*"
figlet-rs = "*"
indicatif = "*"
notify-rust = "*"
rodio = "*"
rusqlite = { version = "*", features = ["bundled"] }
