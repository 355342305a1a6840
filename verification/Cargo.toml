[package]
name = "magic_roulette"
version = "0.1.0"
edition = "2021"
publish = false

[dependencies]
anchor-lang = "=1.2.0"
ephemeral-vrf-sdk = { version = "=0.17.3", features = ["anchor"] }
