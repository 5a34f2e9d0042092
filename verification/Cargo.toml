[package]
name = "bitcoin_capnp"
version = "0.1.0"
edition = "2021"
publish = false

[dependencies]
bitcoin = "0.32"
capnp = "*"
capnp-rpc = "*"
tokio = { version = "1", features = ["rt", "sync", "net", "macros", "time"] }
tokio-util = { version = "0.7", features = ["compat"] }
tracing = "0.1"
