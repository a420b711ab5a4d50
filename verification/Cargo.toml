[package]
name = "provider_client"
version = "0.1.0"
edition = "2021"
publish = false

[dependencies]
atty = "0.2"
clap = { version = "4", features = ["derive", "cargo"] }
lazy_static = "1"
tokio = { version = "0.2", features = ["tcp", "io-util", "macros", "rt-threaded", "time"] }
