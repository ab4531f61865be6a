[package]
name = "launcher_menu"
version = "0.1.0"
edition = "2021"
publish = false

[dependencies]
tokio = { version = "1", features = ["rt", "time", "sync", "macros"] }
futures-util = "0.3"
