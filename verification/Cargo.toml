[package]
name = "uniswap_price"
version = "0.1.0"
edition = "2021"
publish = false

[dependencies]
ethaddr = "*"
hex = "*"
chrono = "*"
serde = { version = "*", features = ["derive"] }
thiserror = "*"
ethers = { version = "*", default-features = false, features = ["abigen"] }
ethers-contract = { version = "*", default-features = false, features = ["abigen"] }
ethers-providers = { version = "*", default-features = false }
