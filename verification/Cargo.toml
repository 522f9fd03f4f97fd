[package]
name = "strata_p2p"
version = "0.1.0"
edition = "2021"
publish = false

[dependencies]
libp2p-identity = { version = "=0.2.14", features = ["ed25519", "secp256k1", "peerid"] }
libp2p = { version = "=0.56.0", default-features = false, features = ["gossipsub", "ed25519", "secp256k1", "tokio", "tcp", "noise", "yamux", "macros", "identify", "request-response", "kad"] }
hex = { version = "=0.4.3", features = ["serde"] }
sled = "=0.34.7"
bytes = "=1.12.1"
bitcoin = "=0.32.102"
flexbuffers = "=25.12.19"
serde = { version = "=1.0.229", features = ["derive"] }
serde_json = "=1.0.154"
tokio = { version = "=1.54.1", features = ["sync", "rt", "macros", "time"] }
tokio-util = "0.7"
threadpool = "=1.8.1"
asynchronous-codec = { version = "=0.7.0", features = ["json"] }
cynosure = "=0.7.0"
tracing = "=0.1.44"
thiserror = "=2.0.21"
futures = "=0.3.34"
async-trait = "=0.1.92"
prost = "=0.13.5"
