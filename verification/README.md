# vault_hpke

HPKE for MLS with the private keys in a vault, verified with Verus.

A client of MLS holds HPKE private keys. With this crate they can stay in a hardware or
software vault that does two things: it tells the public key at a path of its key tree,
and it does X25519 Diffie-Hellman with the private key there. The provider hands out the
path, such as `vault:init/3`, where a private key is expected, and recognizes it when a
message is to be opened. Only the paths of init keys and encryption keys (`vault:enc/0`)
reach the vault. Without a vault, and for all other operations, it hands on to
`RustCrypto`.

- `src/` is the library. Every function has a contract, and Verus proves it. What other
  crates compute is taken for granted in `src/backend.rs`, `src/rust_crypto.rs` and
  `src/primitives.rs`; each function there says what it claims of which call.
- `src/path_laws.rs`, `src/hpke_laws.rs` and `src/counter_laws.rs` prove what holds
  across functions: paths read back, what was sealed opens, indices do not repeat.
- `app/` adapts the provider to the traits of OpenMLS.
- `tests/` runs the library with the other crates linked.
