[package]
name = "instantiate2_factory"
version = "0.1.0"
edition = "2021"
publish = false

[dependencies]
cosmwasm-std = { version = "1.5", features = ["cosmwasm_1_2"] }
cosmwasm-storage = "1.5"
serde = { version = "1", features = ["derive"] }
schemars = "0.8"
