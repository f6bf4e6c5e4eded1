[package]
name = "chain_bridge"
version = "0.1.0"
edition = "2021"
publish = false

[dependencies]
libsecp256k1 = "=0.7.2"
bls-signatures = "=0.15.0"
sha3 = "=0.12.0"
sp-core = "=43.0.0"
sp-io = "=49.0.0"
serde = { version = "=1.0.229", features = ["derive"] }

[dev-dependencies]
hex = "=0.4.3"
parity-scale-codec = "=3.7.5"
sha2 = "=0.11.0"
