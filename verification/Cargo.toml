[package]
name = "datalayer_driver"
version = "0.1.0"
edition = "2021"
publish = false

[dependencies]
chia = "0.9"
chia-protocol = "0.9"
chia-puzzles = "0.9"
chia-sdk-parser = "0.11"
chia-sdk-types = "0.11"
chia-wallet-sdk = "0.11"
clvm-traits = "0.9"
clvm-utils = "0.9"
clvmr = "0.7"
napi = { version = "2", default-features = false, features = ["napi6", "async"] }
napi-derive = "2"
native-tls = "0.2"
num-bigint = "0.4"

[dev-dependencies]
hex = "0.4"
hex-literal = "0.4"
