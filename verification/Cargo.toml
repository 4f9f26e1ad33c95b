[package]
name = "felidae_dao"
version = "0.1.0"
edition = "2021"
publish = false

[dependencies]
bs58 = "=0.4.0"
fixed = "=1.31.0"
ink = "=4.3.0"
ink_env = "=4.3.0"
openbrush = { version = "=4.0.0-beta", features = ["psp22"] }
parity-scale-codec = "=3.7.5"
