[package]
name = "tick_timeout"
version = "0.1.0"
edition = "2021"
publish = false

[dependencies]
critical-section = { version = "1", features = ["std"] }
embedded-hal = "1"

[dev-dependencies]
fugit = "0.3"
