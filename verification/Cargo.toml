[package]
name = "raccacoonie"
version = "0.1.0"
edition = "2021"
publish = false

[dependencies]
log = "*"
ratatui = "*"
tokio = { version = "*", features = ["full"] }
tui-input = "*"
tui-logger = "*"
uuid = { version = "*", features = ["v4"] }
