[package]
name = "slice_reader"
version = "0.1.0"
edition = "2021"
publish = false

[dependencies]
futures = "0.3"
tokio = { version = "1", features = ["io-util", "rt", "rt-multi-thread", "macros", "fs"] }
