[package]
name = "blec"
version = "0.1.0"
edition = "2021"
publish = false

[dependencies]
btleplug = "*"
futures = "*"
once_cell = "*"
tokio = { version = "*", features = ["sync", "time", "rt", "macros"] }
uuid = "*"
