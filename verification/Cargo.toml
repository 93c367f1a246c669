[package]
name = "progress_download"
version = "0.1.0"
edition = "2021"
publish = false

[dependencies]
tokio = { version = "*", features = ["rt", "rt-multi-thread", "macros", "fs", "io-util", "sync", "time"] }
reqwest = { version = "*", default-features = false, features = ["stream"] }
futures-util = "*"
indicatif = "*"
