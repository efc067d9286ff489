[package]
name = "node_tls_resolver"
version = "0.1.0"
edition = "2021"
publish = false

[dependencies]
ed25519-dalek = { version = "2", features = ["pkcs8"] }
rustls = { version = "0.23", default-features = false, features = ["ring", "std"] }
