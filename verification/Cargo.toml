[package]
name = "bitcoin_handshake"
version = "0.1.0"
edition = "2021"
publish = false

[dependencies]
byteorder = "1"
rand = "0.8"
sha2 = "0.10"
clap = { version = "4", features = ["derive"] }
color-eyre = "0.6"
futures = "0.3"
thiserror = "1"
tokio = { version = "1", features = ["io-util", "macros", "net", "rt-multi-thread", "time"] }
tracing = "0.1"
tracing-subscriber = "0.3"
