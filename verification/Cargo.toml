[package]
name = "libp2p-iroh"
version = "0.1.0"
edition = "2021"
publish = false

[dependencies]
futures = "=0.3.34"
iroh = { version = "=1.4.1", default-features = false, features = ["tls-ring"] }
libp2p = { version = "=0.57.1", features = ["ed25519"] }
tokio = { version = "1", features = ["rt", "sync", "time"] }
tracing = "0.1"
