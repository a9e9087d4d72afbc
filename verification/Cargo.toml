[package]
name = "smtp_client"
version = "0.1.0"
edition = "2021"
publish = false

[dependencies]
tokio = { version = "1", features = ["rt-multi-thread", "macros", "io-util", "net", "signal", "sync", "time"] }
tokio-native-tls = "0.3"
