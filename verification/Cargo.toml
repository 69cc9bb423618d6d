[package]
name = "crab_chat_peer"
version = "0.1.0"
edition = "2021"
publish = false

[dependencies]
libp2p = { version = "*", features = ["tokio", "tcp", "noise", "yamux", "gossipsub", "mdns", "kad", "macros"] }
tokio = { version = "*", features = ["rt-multi-thread", "macros", "sync", "io-util", "io-std", "time"] }
futures = "*"
clap = { version = "*", features = ["derive"] }
chrono = "*"
