[package]
name = "alopt"
version = "0.1.0"
edition = "2021"
publish = false

[dependencies]
ringbuffer = "0.15"
tokio = { version = "1", features = ["sync"] }
