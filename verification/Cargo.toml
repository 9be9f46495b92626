[package]
name = "lunitool"
version = "0.1.0"
edition = "2021"
publish = false

[dependencies]
anyhow = "1"
chrono = "0.4"
crossterm = "0.28"
fern = "0.6"
log = "0.4"
ratatui = "0.28"
serde = { version = "1", features = ["derive"] }
serde_yaml = "0.9"
sysinfo = "0.29"
thiserror = "1"
users = "0.11"
