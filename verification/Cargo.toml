[package]
name = "evm_core"
version = "0.1.0"
edition = "2021"
publish = false

[dependencies]
primitive-types = "*"
serde = { version = "*", features = ["derive"] }
parity-scale-codec = { version = "*", features = ["derive"] }
scale-info = { version = "*", features = ["derive"] }
