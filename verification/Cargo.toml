[package]
name = "blink_one"
version = "0.1.0"
edition = "2021"
publish = false

[dependencies]
hidapi = { version = "2", default-features = false, features = ["linux-native-basic-udev"] }
rumqttc = { version = "0.24", default-features = false }
tokio = { version = "1", features = ["rt", "sync", "macros"] }
tokio-stream = "0.1"
tracing = "0.1"
