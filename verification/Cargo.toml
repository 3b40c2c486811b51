[package]
name = "univm"
version = "0.1.0"
edition = "2021"
publish = false

[dependencies]
proc-macro2 = "1"
quote = "1"
syn = { version = "2", features = ["full"] }
serde = "1"
ciborium = "*"
thiserror = "*"
bincode = "1"
rkyv = "0.8"
