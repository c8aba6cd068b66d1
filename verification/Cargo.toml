[package]
name = "smtp_core"
version = "0.1.0"
edition = "2021"
publish = false

[dependencies]
tokio = { version = "1", features = ["net", "io-util", "rt"] }
native-tls = "0.2"
tokio-native-tls = "0.3"
