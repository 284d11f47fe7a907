[package]
name = "inscribe"
version = "0.1.0"
edition = "2021"
publish = false

[dependencies]
bitcoin = { version = "=0.32.102", features = ["serde"] }
ordinals = "=0.0.17"
hex = "=0.4.3"
ic-cdk = "=0.17.2"
ic-cdk-timers = "=0.11.1"
ic-stable-structures = "=0.7.2"
candid = "=0.10.39"
serde = { version = "=1.0.229", features = ["derive"] }
ciborium = "=0.2.2"
icrc-ledger-types = "=0.2.0"
slotmap = { version = "=1.1.1", features = ["serde"] }
getrandom = { version = "=0.2.17", features = ["custom"] }
