[package]
name = "skip_go_adapters"
version = "0.1.0"
edition = "2021"
publish = false

[dependencies]
cosmwasm-std = { version = "=2.3.6", features = ["cosmwasm_2_0"] }
cw2 = "=2.0.0"
cw-storage-plus = "=2.0.0"
cw-utils = "=2.0.0"
cw20 = "=2.0.0"
serde = { version = "=1.0.229", features = ["derive"] }
serde-json-wasm = "=1.0.1"
serde-cw-value = "=0.7.0"
sha2 = "=0.10.9"
hex = "=0.4.3"
thiserror = "=1.0.69"
prost = "=0.12.6"
