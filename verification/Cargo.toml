[package]
name = "awsx2"
version = "0.1.0"
edition = "2021"
publish = false

[dependencies]
serde_json = "=1.0.154"
serde = { version = "=1.0.229", features = ["derive"] }
clap = { version = "=4.6.7", features = ["derive", "env"] }
libc = "=0.2.191"
thiserror = "=1.0.69"
crossterm = "=0.28.1"
ratatui = "=0.29.0"
dirs = "=5.0.1"
regex = "=1.13.1"
url = "=2.5.8"
tempfile = "=3.27.0"
tiny_http = "=0.12.0"
headless_chrome = "0.9"
