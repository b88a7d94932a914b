[package]
name = "escrow"
version = "0.1.0"
edition = "2021"
publish = false

[dependencies]
pinocchio = "*"
pinocchio-token = "*"
pinocchio-system = "*"
pinocchio-associated-token-account = "*"
pinocchio-log = "*"
pinocchio-pubkey = "*"
wincode = { version = "*", features = ["derive"] }
