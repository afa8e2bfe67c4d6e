[package]
name = "gn"
version = "0.1.0"
edition = "2021"
publish = false

[dependencies]
clap = { version = "4", features = ["derive"] }
clap-stdin = "*"
futures = "0.3"
humantime = "2"
tokio = { version = "1", features = ["rt-multi-thread", "net", "io-util", "time", "macros"] }
