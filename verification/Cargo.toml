[package]
name = "act_core"
version = "0.1.0"
edition = "2021"
publish = false

[dependencies]
anonymous-credit-tokens = "=0.3.1"
curve25519-dalek = "=4.1.3"
rand_core = { version = "=0.6.4", features = ["getrandom"] }
hex = "=0.4.3"
serde = { version = "=1.0.229", features = ["derive"] }
serde_json = "=1.0.154"
tokio = { version = "=1.54.1", features = ["sync", "macros", "rt-multi-thread"] }
tracing = "=0.1.44"
axum = "=0.8.9"
reqwest = { version = "=0.13.5", default-features = false }
rmcp = "0.6"
wasm-bindgen = "=0.2.129"
worker = "=0.8.7"
console_error_panic_hook = "=0.1.7"
