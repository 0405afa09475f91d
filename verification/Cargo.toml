[package]
name = "mdir"
version = "0.1.1"
edition = "2021"
publish = false

[dependencies]
unicode-width = "0.2"
dirs = "5"
chrono = "0.4"
clap = { version = "4", features = ["derive"] }
crossterm = "0.28"
ratatui = "0.29"
serde = { version = "1", features = ["derive"] }
toml = "0.8"
trash = "5"
open = "5"
