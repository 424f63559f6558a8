[package]
name = "gyre"
version = "1.0.0"
edition = "2021"
publish = false

[dependencies]
crossbeam-utils = "0.8"
papaya = "0.2"
tokio = { version = "1", features = ["sync", "rt", "time", "macros"] }
