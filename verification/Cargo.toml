[package]
name = "p2p_handshake"
version = "0.1.0"
edition = "2021"
publish = false

[dependencies]
rand = "0.9"
futures = "0.1"
tokio-core = "0.1"
