[package]
name = "account_records"
version = "0.1.0"
edition = "2021"
publish = false

[dependencies]
bounded-collections = "*"
frame-support = "*"
frame-system = "*"
log = "*"
parity-scale-codec = { version = "*", features = ["derive"] }
scale-info = { version = "*", features = ["derive"] }
sp-api = "*"
sp-runtime = "*"
sp-std = "*"
