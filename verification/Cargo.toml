[package]
name = "appstruct_codegen"
version = "0.1.0"
edition = "2021"
publish = false

[dependencies]
proc-macro2 = "1"
serde_json = "1"
syn = { version = "2", features = ["parsing", "printing"] }
