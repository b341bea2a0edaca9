[package]
name = "bidi_rpc"
version = "0.1.0"
edition = "2021"
publish = false

[dependencies]
futures-lite = "2"
futures-util = { version = "0.3", features = ["sink"] }
