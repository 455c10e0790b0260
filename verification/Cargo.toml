[package]
name = "counter_pallet"
version = "0.1.0"
edition = "2021"
publish = false

[dependencies]
frame-support = "49.0.0"
frame-system = "49.0.0"
parity-scale-codec = { version = "*", features = ["derive"] }
scale-info = { version = "*", features = ["derive"] }
