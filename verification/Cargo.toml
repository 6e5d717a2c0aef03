[package]
name = "twitch_chat_bot"
version = "0.1.0"
edition = "2021"
publish = false

[dependencies]
rand = "=0.8.8"
url = "=2.5.8"
chrono = "=0.4.45"
tokio = { version = "=1.54.1", features = ["full"] }
reqwest = { version = "=0.12.28", default-features = false, features = ["rustls-tls"] }
websocket = { version = "=0.27.1", default-features = false, features = ["sync"] }
open = "5"
