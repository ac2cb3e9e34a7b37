[package]
name = "wrapper_gen"
version = "0.1.0"
edition = "2021"
publish = false

[dependencies]
proc-macro2 = "1"

[dev-dependencies]
syn = { version = "2", features = ["full"] }
