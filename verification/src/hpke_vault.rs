//! Vault-backed HPKE key operations.
//!
//! [`HpkeVaultBackend`] abstracts X25519 key derivation and Diffie-Hellman inside a
//! secure boundary: a hardware vault, a software vault and the like. Private keys never
//! leave the vault; only public keys and raw Diffie-Hellman values cross this
//! interface.

use crate::types::{viewed, CryptoError};
use vstd::prelude::*;

verus! {

/// The key type of init keys in the vault's key tree.
pub const INIT: &'static str = "init";

/// The key type of encryption keys in the vault's key tree.
pub const ENC: &'static str = "enc";

/// Whether the vault's key tree has keys of a type.
pub open spec fn is_key_type(key_type: Seq<char>) -> bool {
    key_type == INIT@ || key_type == ENC@
}

/// Backend trait for vault-backed HPKE key operations.
///
/// A vault may answer the same question differently at different times: it can be
/// locked, unplugged or broken. So the two specification functions are relations: they
/// say which replies a vault may give to which questions. A vault that does not say
/// otherwise may reply anything.
pub trait HpkeVaultBackend: Send + Sync {
    /// Whether the vault may give this reply when asked for the public key at a path.
    open spec fn pubkey_reply(
        &self,
        key_type: Seq<char>,
        index: u32,
        reply: Result<Seq<u8>, CryptoError>,
    ) -> bool {
        true
    }

    /// Whether the vault may give this reply when asked for the Diffie-Hellman value of
    /// the private key at a path with a peer's public key.
    open spec fn dh_reply(
        &self,
        key_type: Seq<char>,
        index: u32,
        peer_public: Seq<u8>,
        reply: Result<Seq<u8>, CryptoError>,
    ) -> bool {
        true
    }

    /// Returns the X25519 public key at the given derivation path.
    ///
    /// `key_type` is `"init"` or `"enc"`, and `index` is the monotonic counter value.
    fn pubkey_at(&self, key_type: &str, index: u32) -> (reply: Result<Vec<u8>, CryptoError>)
        requires
            is_key_type(key_type@),
        ensures
            self.pubkey_reply(key_type@, index, viewed(reply)),
    ;

    /// Performs X25519 Diffie-Hellman at the given derivation path and returns the raw
    /// value of 32 bytes.
    ///
    /// `key_type`, which is `"init"` or `"enc"`, and `index` identify the private key.
    /// `peer_public` is the peer's
    /// X25519 public key, 32 bytes long.
    fn dh(&self, key_type: &str, index: u32, peer_public: &[u8]) -> (reply: Result<
        Vec<u8>,
        CryptoError,
    >)
        requires
            is_key_type(key_type@),
        ensures
            self.dh_reply(key_type@, index, peer_public@, viewed(reply)),
    ;
}

} // verus!
