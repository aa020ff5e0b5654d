[package]
name = "typed_tx"
version = "0.1.0"
edition = "2021"
publish = false

[dependencies]
serde = { version = "1", features = ["derive"] }
tiny-keccak = { version = "2", features = ["keccak"] }

[dev-dependencies]
rlp = "0.5"
