[package]
name = "pull_all"
version = "0.1.0"
edition = "2021"
publish = false

[dependencies]
anyhow = "1"
clap = { version = "4", features = ["derive", "env"] }
crossterm = "0.28"
num_cpus = "1"
ratatui = "0.29"
serde = { version = "1", features = ["derive"] }
serde_json = "1"
terminal-colorsaurus = "1"
tokio = { version = "1", features = ["full"] }
unicode-width = "0.2"
