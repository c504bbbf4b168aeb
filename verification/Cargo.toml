[package]
name = "connection_core"
version = "0.1.0"
edition = "2021"
publish = false

[dependencies]
tokio = { version = "=1.54.1", default-features = false, features = ["net", "io-util", "rt"] }
native-tls = "=0.2.18"
tokio-native-tls = "=0.3.1"
pin-project = "=1.1.13"

[dev-dependencies]
socket2 = { version = "=0.6.5", features = ["all"] }
openssl = "=0.10.81"
