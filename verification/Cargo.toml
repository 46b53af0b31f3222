[package]
name = "liquid_staking"
version = "0.1.0"
edition = "2021"
publish = false

[dependencies]
sp-arithmetic = "=29.0.0"
frame-support = { version = "*", default-features = false }
frame-system = { version = "*", default-features = false }
pallet-democracy = { version = "*", default-features = false }
sp-staking = { version = "*", default-features = false }
sp-runtime = { version = "*", default-features = false }
parity-scale-codec = { version = "3", default-features = false, features = ["derive"] }
scale-info = { version = "2", default-features = false, features = ["derive"] }
