[package]
name = "edge-treasury-reward"
version = "0.1.0"
edition = "2021"
publish = false

[dependencies]
frame-support = { version = "*", default-features = false }
frame-system = { version = "*", default-features = false }
pallet-balances = { version = "*", default-features = false }
pallet-session = { version = "*", default-features = false }
pallet-staking = { version = "*", default-features = false }
pallet-staking-reward-curve = "*"
pallet-timestamp = { version = "*", default-features = false }
pallet-treasury = { version = "*", default-features = false }
sp-core = { version = "*", default-features = false }
sp-io = { version = "*", default-features = false }
sp-runtime = { version = "*", default-features = false }
sp-staking = { version = "*", default-features = false }
