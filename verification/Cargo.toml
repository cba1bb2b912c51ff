[package]
name = "focus_timer"
version = "0.1.0"
edition = "2021"
publish = false

[dependencies]
chrono = "0.4"
clap = { version = "4", features = ["derive"] }
csv = "1"
dirs = "5"
rusqlite = "0.32"
serde = { version = "1", features = ["derive"] }
