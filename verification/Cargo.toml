[package]
name = "gonka-thesoul-vesting"
version = "0.1.0"
edition = "2021"
publish = false

[dependencies]
cosmwasm-std = { version = "=3.0.11", features = ["cosmwasm_2_0"] }
cosmwasm-schema = "=3.0.11"
cw-storage-plus = "=3.0.1"
cw2 = "=3.0.0"
prost = "=0.13.5"
thiserror = "=2.0.21"
