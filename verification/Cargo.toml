[package]
name = "mycelium_node"
version = "0.1.0"
edition = "2021"
publish = false

[dependencies]
libp2p = { version = "*", features = ["ed25519", "macros", "mdns", "noise", "tcp", "tokio", "yamux"] }
tokio = { version = "*", features = ["macros", "rt-multi-thread", "sync", "time"] }
chrono = "*"
serde = { version = "*", features = ["derive"] }
serde_json = "*"
sysinfo = "*"
log = "*"
env_logger = "*"
thiserror = "*"
