[package]
name = "wasmtime_ex"
version = "0.1.0"
edition = "2021"
publish = false

[dependencies]
wasmtime = "=47.0.4"
crossbeam = "*"
rustler = "*"
serde = { version = "*", features = ["derive"] }
serde_json = "*"

[dev-dependencies]
wat = "*"
