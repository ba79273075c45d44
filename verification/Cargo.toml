[package]
name = "clocktop"
version = "0.1.0"
edition = "2021"
publish = false

[dependencies]
chrono = "0.4"
chrono-tz = "0.10"
iana-time-zone = "0.1"
clap = { version = "4", features = ["derive"] }
serde = { version = "1", features = ["derive"] }
figment = { version = "0.10", features = ["toml"] }
humantime = "2"
humantime-serde = "1"
crossterm = "0.28"
ratatui = "0.29"
