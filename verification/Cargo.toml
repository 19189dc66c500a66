[package]
name = "rs_iec60870_5"
version = "0.1.0"
edition = "2021"
publish = false

[dependencies]
chrono = "0.4"
chrono-tz = "*"
tokio = { version = "1", features = ["full"] }
tokio-serial = { version = "*", default-features = false }
async-trait = "0.1"
tracing = "0.1"
