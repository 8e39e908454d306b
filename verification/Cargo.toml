[package]
name = "nmrs_tui"
version = "0.1.0"
edition = "2021"
publish = false

[dependencies]
anyhow = "=1.0.104"
clap = { version = "=4.6.7", features = ["derive"] }
crossterm = { version = "=0.29.0", features = ["event-stream"] }
dirs = "=7.0.0"
log = "=0.4.35"
nmrs = "=3.5.7"
ratatui = { version = "=0.30.2", features = ["serde"] }
ron = "=0.12.3"
serde = { version = "=1.0.229", features = ["derive"] }
simplelog = "=0.12.2"
tokio = { version = "=1.54.1", features = ["full"] }
tokio-stream = "=0.1.19"
