[package]
name = "ws_session"
version = "0.1.0"
edition = "2021"
publish = false

[dependencies]
chrono = { version = "=0.4.45", default-features = false, features = ["clock"] }
url = "=2.5.8"
tokio-tungstenite = "=0.21.0"
tokio = { version = "=1.54.1", features = ["rt-multi-thread", "net", "time", "sync"] }
poll-promise = "=0.3.0"
futures = "0.3"
egui = { version = "=0.26.2", default-features = false }
