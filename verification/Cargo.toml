[package]
name = "vanity_address"
version = "0.1.0"
edition = "2021"
publish = false

[dependencies]
bitcoin = "0.28"
secp256k1 = { version = "0.22", features = ["rand-std"] }
getrandom = "0.2"
clap = "4"
indicatif = "0.17"
num_cpus = "1"
rayon = "1"

[dev-dependencies]
serde_json = "1"
