[package]
name = "coolchatty"
version = "0.1.0"
edition = "2021"
publish = false

[dependencies]
base64 = "*"
serde_json = "*"
serde = { version = "*", features = ["derive"] }
tokio = { version = "*", features = ["rt-multi-thread", "sync", "time", "macros"] }
tokio-tungstenite = "*"
futures = "*"
cpal = "*"
parking_lot = "*"
directories = "*"
arboard = "*"
enigo = "*"
