[package]
name = "typeful"
version = "0.1.0"
edition = "2021"
publish = false

[dependencies]
proc-macro2 = { version = "=1.0.107", features = ["span-locations"] }
quote = "=1.0.47"
syn = "=2.0.119"
