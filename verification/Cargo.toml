[package]
name = "ratatui-simple-logger"
version = "0.1.0"
edition = "2021"
publish = false

[dependencies]
log = "0.4"
ratatui = { version = "0.29", default-features = false }
