[package]
name = "builder_gen"
version = "0.1.0"
edition = "2021"
publish = false

[dependencies]
serde = { version = "*", features = ["derive"] }
toml = "*"
syn = { version = "*", features = ["full"] }
proc-macro2 = "*"
quote = "*"
