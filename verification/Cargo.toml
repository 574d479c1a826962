[package]
name = "crates_tui"
version = "0.1.0"
edition = "2021"
publish = false

[dependencies]
serde = { version = "1", features = ["derive"] }
strum = { version = "0.26", features = ["derive"] }
crossterm = "0.27"
ratatui = "0.26"
tui-input = "0.8"
tokio = { version = "1", features = ["full"] }
crates_io_api = "0.9"
color-eyre = "0.6"
