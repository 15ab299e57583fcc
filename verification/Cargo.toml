[package]
name = "launcher"
version = "0.1.0"
edition = "2021"
publish = false

[dependencies]
ratatui = "0.29"
crossterm = "0.28"
dirs = "*"
libc = "0.2"
serde = { version = "1", features = ["derive"] }
serde_json = "1"
