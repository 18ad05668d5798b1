[package]
name = "gat-gwm"
version = "0.1.0"
edition = "2021"
publish = false

[dependencies]
anyhow = "1"
serde = { version = "1", features = ["derive"] }
serde_json = "1"
tungstenite = "*"
tracing-appender = "*"
tracing-subscriber = "*"
tao = "*"
tray-icon = "*"
