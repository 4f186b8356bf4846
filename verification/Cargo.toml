[package]
name = "shank-idl"
version = "0.1.0"
edition = "2021"
publish = false

[dependencies]
anyhow = "1.0"
heck = "0.3.3"
serde = { version = "1.0", features = ["derive"] }
shank_macro_impl = "*"
