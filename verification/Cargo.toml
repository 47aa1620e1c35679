[package]
name = "trusc"
version = "0.1.0"
edition = "2021"
publish = false

[dependencies]
deno_core = "0.89"
serde = { version = "1", features = ["derive"] }
