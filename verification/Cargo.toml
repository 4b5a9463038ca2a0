[package]
name = "jaken"
version = "0.1.0"
edition = "2021"
publish = false

[dependencies]
base64 = "*"
cosmwasm-std = "*"
cw2 = "*"
cw-storage-plus = "*"
rand_chacha = "*"
rand_core = "*"
schemars = "*"
serde = { version = "*", features = ["derive"] }
sha2 = "*"
thiserror = "*"
