[package]
name = "omnimock"
version = "0.1.0"
edition = "2021"
publish = false

[dependencies]
downcast = "=0.11.0"
fragile = "=3.0.0"
proc-macro2 = "0.4"
quote = "0.6"
syn = { version = "0.15", features = ["full"] }
