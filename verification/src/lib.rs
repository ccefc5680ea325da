//! Vault-backed HPKE for MLS.
//!
//! An MLS client receives messages under HPKE key pairs: init keys, to which a Welcome
//! is encrypted, and encryption keys, to which commits are. This crate lets those
//! private keys stay in a vault. What takes the place of a private key is a path into
//! the vault's key tree; to open a message, the vault is asked for a Diffie-Hellman
//! value, and the crate does the rest.
//!
//! - [`hpke_vault`] is the interface to the vault, and [`vault_path`] the form of the
//!   paths.
//! - [`vault_crypto`] is the provider: it derives key pairs, seals and opens.
//!   [`delegation`] adds the operations that a vault has no part in.
//! - [`key_schedule`] goes from a Diffie-Hellman value to the message.
//! - [`provider`] and [`mls_signer`] are what stands around the provider: storage and
//!   signing keys.
//! - [`types`] is the vocabulary.
//! - [`backend`], [`rust_crypto`] and [`primitives`] are the calls into other crates.
//!   What these crates compute is not proved here but taken for granted, as the
//!   contract of each call says.
//! - [`path_laws`], [`hpke_laws`] and [`counter_laws`] state what holds of all this
//!   taken together: above all, that what was sealed to a key in the vault opens
//!   through the vault. [`operation_laws`] spells out what each operation does.

pub mod backend;
pub mod counter_laws;
pub mod delegation;
pub mod hpke_laws;
pub mod hpke_vault;
pub mod key_schedule;
pub mod mls_signer;
pub mod operation_laws;
pub mod path_laws;
pub mod primitives;
pub mod provider;
pub mod rust_crypto;
pub mod types;
pub mod vault_crypto;
pub mod vault_path;
