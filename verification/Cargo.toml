[package]
name = "find_crate"
version = "0.1.0"
edition = "2021"
publish = false

[dependencies]
toml = { version = "0.5", features = ["preserve_order"] }

[dev-dependencies]
semver = "1"
