[package]
name = "keystack-core"
version = "0.1.0"
edition = "2021"
publish = false

[dependencies]
libcrux-ed25519 = "=0.0.10"
getrandom = "=0.3.4"
wasmtime = { version = "=47.0.4", default-features = false, features = ["cranelift", "runtime", "std", "wat"] }
syn = { version = "=2.0.119", features = ["full"] }
quote = "=1.0.47"
