[package]
name = "context_attr"
version = "0.1.0"
edition = "2021"
publish = false

[dependencies]
syn = { version = "=3.0.6", default-features = false, features = ["full", "parsing", "printing"] }
quote = { version = "=1.0.47", default-features = false }
proc-macro2 = { version = "=1.0.107", default-features = false }

[dev-dependencies]
eyre = "=0.6.14"
