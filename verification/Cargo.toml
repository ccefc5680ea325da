[package]
name = "vault_hpke"
version = "0.1.0"
edition = "2021"
publish = false

[dependencies]
hkdf = "=0.12.4"
hpke-rs = "0.6"
hpke-rs-crypto = "0.6"
hpke-rs-rust-crypto = "0.6"
openmls_rust_crypto = "=0.5.1"
openmls_traits = "=0.5.0"
sha2 = "=0.10.9"
tls_codec = "0.4"
tracing = "0.1"

[dev-dependencies]
x25519-dalek = { version = "=2.0.1", features = ["static_secrets"] }
