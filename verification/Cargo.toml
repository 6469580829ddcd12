[package]
name = "net_comms"
version = "0.1.0"
edition = "2021"
publish = false

[dependencies]
chrono = "0.4"
itertools = "*"
ron = "*"
serde = { version = "1", features = ["derive"] }
