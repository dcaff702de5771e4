[package]
name = "p2p"
version = "0.1.0"
edition = "2021"
publish = false

[dependencies]
bytecodec = "*"
stun_codec = "*"
serde = { version = "*", features = ["derive"] }
serde_json = "*"
chrono = "*"
tokio = { version = "*", features = ["macros", "rt-multi-thread", "net", "time", "io-util", "fs"] }
libp2p = { version = "*", features = ["tokio", "tcp", "noise", "yamux", "kad", "ping", "macros"] }
