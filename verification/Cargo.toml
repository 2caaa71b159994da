[package]
name = "budget_tui"
version = "0.1.0"
edition = "2021"
publish = false

[dependencies]
chrono = "*"
color-eyre = "*"
crossterm = "*"
ratatui = "*"
rusqlite = { version = "*", features = ["bundled", "chrono"] }
