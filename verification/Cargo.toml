[package]
name = "lq-express-sm"
version = "0.1.0"
edition = "2021"
publish = false

[dependencies]
astroport = "3"
cosmwasm-schema = "1.5"
cosmwasm-std = "1.5"
cw-storage-plus = "1.2"
cw-utils = "1"
cw2 = "1"
schemars = "0.8"
serde = { version = "1", default-features = false, features = ["derive"] }
thiserror = "1"
