[package]
name = "basket_algos"
version = "0.1.0"
edition = "2021"
publish = false

[dependencies]
anchor-lang = "=0.31.1"
anchor-spl = { version = "=0.31.1", default-features = false, features = ["token", "token_2022"] }
rand = "=0.8.8"
rust_decimal = { version = "=1.43.0", features = ["maths"] }
bincode = "=1.3.3"
serde = { version = "=1.0.229", features = ["derive"] }
