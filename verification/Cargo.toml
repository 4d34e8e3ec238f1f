[package]
name = "hello_world"
version = "0.1.0"
edition = "2021"
publish = false

[dependencies]
cosmwasm-std = "1"
cw2 = "1"
serde = { version = "1", features = ["derive"] }
