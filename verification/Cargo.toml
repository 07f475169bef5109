[package]
name = "web"
version = "0.1.0"
edition = "2021"
publish = false

[dependencies]
rust_decimal = "1"
axum = "0.8"
tokio = { version = "1", features = ["rt-multi-thread", "net", "macros", "time"] }
lettre = { version = "0.11", features = ["tokio1", "tokio1-native-tls"] }
