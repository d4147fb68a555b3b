[package]
name = "persisten_tui"
version = "0.1.0"
edition = "2021"
publish = false

[dependencies]
clippers = "*"
color-eyre = "*"
crossterm = { version = "*", features = ["event-stream"] }
futures = "*"
palette = "*"
ratatui = "*"
tokio = { version = "*", features = ["macros", "rt", "rt-multi-thread", "sync", "time"] }
tui-input = "*"
