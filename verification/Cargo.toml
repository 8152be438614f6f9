[package]
name = "schema2struct"
version = "0.1.0"
edition = "2021"
publish = false

[dependencies]
inflections = "1.1"
proc-macro-error = "1"
proc-macro2 = "1"
quote = "1"
serde = { version = "1", features = ["derive"] }
serde_json = "1"
syn = { version = "2", features = ["full"] }
