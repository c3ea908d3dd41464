[package]
name = "adacs_job_client"
version = "0.1.0"
edition = "2021"
publish = false

[dependencies]
serde = { version = "1", features = ["derive"] }
serde_json = "1"
tokio = { version = "1", features = ["full"] }
tokio-tungstenite = "*"
futures-util = "*"
bytes = "1"
tar = "*"
flate2 = "1"
walkdir = "2"
tracing = "*"
tracing-subscriber = { version = "*", features = ["env-filter"] }
tracing-appender = "*"
libc = "*"
libloading = "*"
parking_lot = "*"
byteorder = "1"
