[package]
name = "kongg"
version = "0.1.0"
edition = "2021"
publish = false

[dependencies]
globset = "*"
serde = { version = "*", features = ["derive"] }
chrono = { version = "*", features = ["serde"] }
tokio = { version = "*", features = ["rt-multi-thread", "macros", "time"] }
futures = "*"
notify = "*"
dirs = "*"
crossterm = "*"
ratatui = "*"
