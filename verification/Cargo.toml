[package]
name = "nanosim"
version = "0.1.0"
edition = "2021"
publish = false

[dependencies]
rand = "0.8"
tokio = { version = "1", features = ["rt-multi-thread", "time", "macros"] }
futures = "0.3"
smartcore = "0.2"
ndarray = "0.15"
