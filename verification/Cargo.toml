[package]
name = "db"
version = "0.1.0"
edition = "2021"
publish = false

[dependencies]
bb8 = "=0.9.1"
bb8-postgres = "=0.9.0"
tokio-postgres = "=0.7.18"
tracing = "=0.1.44"

[dev-dependencies]
tokio = { version = "=1.54.1", features = ["rt", "io-util"] }
