[package]
name = "tql_macros"
version = "0.1.0"
edition = "2021"
publish = false

[dependencies]
rand = "0.4"
proc-macro2 = "0.2"
quote = "0.4"
syn = { version = "0.12", features = ["full"] }
