[package]
name = "clipstash"
version = "0.1.0"
edition = "2021"
publish = false

[dependencies]
base64 = "0.13"
chrono = "0.4"
crossbeam-channel = "0.5"
parking_lot = "0.12"
rand = "0.8"
serde = { version = "1", features = ["derive"] }
sqlx = { version = "0.8", default-features = false, features = ["runtime-tokio", "postgres"] }
thiserror = "1"
tokio = { version = "1", features = ["rt", "rt-multi-thread", "time"] }
uuid = { version = "1", features = ["v4"] }
