[package]
name = "aclaude"
version = "0.1.0"
edition = "2021"
publish = false

[dependencies]
serde = { version = "1", features = ["derive"] }
serde_json = "1"
similar = "2"
chrono = "0.4"
ratatui = "0.29"
crossterm = "0.28"
tokio = { version = "1", features = ["process", "io-util", "sync", "rt", "macros"] }
image = { version = "0.25", default-features = false, features = ["png", "jpeg"] }
ratatui-image = "8"
