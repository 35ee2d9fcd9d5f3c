[package]
name = "quic_p2p"
version = "0.1.0"
edition = "2021"
publish = false

[dependencies]
bytes = "1"
futures = "0.3"
log = "0.4"
quinn = "*"
tokio = { version = "1", features = ["rt-multi-thread"] }
