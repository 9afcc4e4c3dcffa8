[package]
name = "termide"
version = "0.1.0"
edition = "2021"
publish = false

[dependencies]
ropey = "1.6"
crossterm = "0.28"
ratatui = "0.29"
anyhow = "1"
thiserror = "1"
serde = { version = "1", features = ["derive"] }
toml = "0.8"
dirs = "5"
notify = "6"
notify-debouncer-mini = "0.4"
copypasta = "0.10"
