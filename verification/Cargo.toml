[package]
name = "pollstate"
version = "0.1.0"
edition = "2021"
publish = false

[dependencies]
data-encoding = "*"
uuid = { version = "*", features = ["v4"] }
uuid7 = "*"
serde = { version = "*", features = ["derive"] }
serde_with = "*"
schemars = "*"
jsonrpsee = { version = "*", features = ["server"] }
jsonrpsee-proc-macros = "*"
