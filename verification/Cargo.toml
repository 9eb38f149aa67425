[package]
name = "deposit_proof"
version = "0.1.0"
edition = "2021"
publish = false

[dependencies]
winterfell = "*"
hex = "*"
serde = { version = "*", features = ["derive"] }
serde_json = "*"
