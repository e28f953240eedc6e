[package]
name = "migration_address"
version = "0.1.0"
edition = "2021"
publish = false

[dependencies]
bee-ternary = "0.5"
blake2 = "0.10"
iota-crypto = { version = "0.9", features = ["ternary_hashes", "kerl_deprecated_do_not_use"] }
bee-message = "0.1"
wasm-bindgen = "0.2"
console_error_panic_hook = "0.1"
