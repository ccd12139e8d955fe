[package]
name = "dtls"
version = "0.1.0"
edition = "2021"
publish = false

[dependencies]
heapless = "=0.8.0"
x25519-dalek = "=2.0.1"
rand_core = { version = "=0.6.4", features = ["getrandom"] }
tokio = { version = "1", features = ["rt-multi-thread", "macros", "net", "sync", "time"] }
postcard-rpc = { version = "=0.12.1", features = ["use-std"] }
postcard = { version = "1", features = ["experimental-derive"] }
serde = { version = "1", features = ["derive"] }
anyhow = "1"
log = "0.4"
pretty_env_logger = "*"
once_cell = "1"
rustc-hash = "*"
