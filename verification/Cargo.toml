[package]
name = "oysterpack"
version = "0.1.0"
edition = "2021"
publish = false

[dependencies]
flate2 = "1"
lz4 = "1"
parity-snappy = "*"
bs58 = "*"
bincode = "1"
rusty_ulid = "*"
uuid = { version = "*", features = ["v4"] }
chrono = "0.4"
exonum_sodiumoxide = "*"
serde = { version = "1", features = ["derive"] }
serde_json = "1"
serde_cbor = "*"
rmp-serde = "*"
log = "0.4"
fern = "*"
bytes = "*"
crossbeam-channel = "*"
futures = "0.1"
