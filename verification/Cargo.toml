[package]
name = "martian_field"
version = "0.1.0"
edition = "2021"
publish = false

[dependencies]
cosmwasm-std = "=1.5.11"
cw-asset = "=3.1.1"
cw-storage-plus = "=1.2.0"
cw20 = "=1.1.2"
serde = { version = "=1.0.229", default-features = false, features = ["derive"] }
schemars = "=0.8.22"
