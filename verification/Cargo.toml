[package]
name = "systemctl_tui"
version = "0.1.0"
edition = "2021"
publish = false

[dependencies]
anyhow = "1"
crossterm = "0.27"
duct = "0.13"
futures = "0.3"
itertools = "0.12"
ratatui = "0.26"
tokio = { version = "1", features = ["full"] }
tokio-util = "0.7"
tracing = "0.1"
tui-input = "0.8"
