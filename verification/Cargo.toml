[package]
name = "wasm_runtime"
version = "0.1.0"
edition = "2021"
publish = false

[dependencies]
labeled = "=0.1.0"
strfmt = "=0.2.6"
extism = { version = "=1.21.0", default-features = false }
reqwest = { version = "=0.11.27", default-features = false, features = ["blocking"] }
serde = { version = "=1.0.229", features = ["derive"] }
env_logger = "=0.11.11"
log = "=0.4.34"
