[package]
name = "file_sharing"
version = "0.1.0"
edition = "2021"
publish = false

[dependencies]
libp2p = { version = "=0.53.2", features = ["ed25519", "tokio", "tcp", "noise", "yamux", "kad", "request-response", "cbor", "macros"] }
tokio = { version = "1", features = ["rt-multi-thread", "macros", "sync", "time"] }
futures = "0.3"
clap = { version = "4", features = ["derive"] }
serde = { version = "1", features = ["derive"] }
