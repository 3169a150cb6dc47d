[package]
name = "irc_tui"
version = "0.1.0"
edition = "2021"
publish = false

[dependencies]
anyhow = "1"
crossterm = "0.27"
futures = "0.3"
irc = "0.15"
ratatui = "0.26"
tokio = { version = "1", features = ["full"] }
