[package]
name = "canvas"
version = "0.1.0"
edition = "2021"
publish = false

[dependencies]
uuid = { version = "*", features = ["v4"] }
ansi_term = "*"
tokio = { version = "*", features = ["macros", "rt-multi-thread", "time"] }
