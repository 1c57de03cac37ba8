[package]
name = "component_host"
version = "0.1.0"
edition = "2021"
publish = false

[dependencies]
anyhow = "1"
clap = { version = "4", features = ["derive"] }
wasmtime = { version = "29", default-features = false, features = ["runtime", "cranelift", "component-model", "std"] }

[dev-dependencies]
wat = "1"
