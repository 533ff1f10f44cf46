[package]
name = "stable_typeid"
version = "0.1.0"
edition = "2021"
publish = false

[dependencies]
const-fnv1a-hash = "*"
proc-macro2 = "1"
quote = "1"
syn = { version = "2", features = ["full"] }
