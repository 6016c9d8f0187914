[package]
name = "kline_chart"
version = "0.1.0"
edition = "2021"
publish = false

[dependencies]
crossterm = "0.27"
futures-util = "0.3"
rand = "0.8"
ratatui = "0.26"
reqwest = { version = "0.11", features = ["json"] }
serde = { version = "1", features = ["derive"] }
serde_json = "1"
tokio = { version = "1", features = ["macros", "rt-multi-thread", "time", "net"] }
tokio-tungstenite = { version = "0.21", features = ["native-tls"] }
