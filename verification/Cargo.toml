[package]
name = "node_network"
version = "0.1.0"
edition = "2021"
publish = false

[dependencies]
bincode = "1.3"
serde = { version = "1", features = ["derive"] }
rand = "0.8"
libp2p = { version = "*", default-features = false, features = ["tcp", "noise", "yamux", "gossipsub", "kad", "identify", "request-response", "tokio", "macros"] }
tokio = { version = "1", features = ["sync", "rt", "rt-multi-thread", "macros"] }
futures = "0.3"
tracing = "0.1"
thiserror = "1"
datasize = "*"
prometheus = "*"
