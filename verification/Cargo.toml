[package]
name = "weather_clock"
version = "0.1.0"
edition = "2021"
publish = false

[dependencies]
time = "0.3"
tokio = { version = "1", features = ["rt-multi-thread", "macros", "sync", "time", "signal"] }
reqwest = { version = "0.12", default-features = false, features = ["json"] }
serde = { version = "1", features = ["derive"] }
crossterm = "*"
ratatui = "*"
lcd = "*"
lcd-pcf8574 = "*"
anyhow = "1"
