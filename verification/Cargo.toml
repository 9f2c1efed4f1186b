[package]
name = "netgene"
version = "0.1.0"
edition = "2021"
publish = false

[dependencies]
serde = { version = "1", features = ["derive"] }
serde_json = "1"
uuid = { version = "1", features = ["v4", "serde"] }
chrono = { version = "0.4", default-features = false, features = ["now", "serde"] }
ring = "0.17"
sha3 = "0.10"
hex = "0.4"
base64 = "0.22"
rand = "0.8"
zeroize = "1"
anyhow = "1"
thiserror = "1"
tokio = { version = "1", features = ["rt-multi-thread", "macros", "sync", "time", "signal", "net"] }
tracing = "0.1"
tracing-subscriber = "0.3"
clap = { version = "4", features = ["derive"] }
async-trait = "0.1"
postcard = { version = "1", features = ["alloc"] }
reqwest = { version = "0.12", default-features = false, features = ["json"] }
libp2p = { version = "0.53", features = ["tokio", "gossipsub", "mdns", "kad", "identify", "noise", "tcp", "yamux", "macros"] }
