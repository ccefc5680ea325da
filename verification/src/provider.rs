//! A short-lived provider, composed of the crypto provider and the storage.
//!
//! One is made for each MLS call. That is cheap, two references, and spares a storage
//! of its own every method that it would have to hand on.

use crate::vault_crypto::VaultCryptoProvider;
use openmls_rust_crypto::RustCrypto;
use vstd::prelude::*;

verus! {

/// The crypto provider and the storage of an engine, side by side.
pub struct EngineOpenMlsProvider<'a, S> {
    crypto: &'a VaultCryptoProvider,
    storage: &'a S,
}

impl<'a, S> EngineOpenMlsProvider<'a, S> {
    /// The crypto provider that it was made of.
    pub closed spec fn crypto_part(&self) -> VaultCryptoProvider {
        *self.crypto
    }

    /// The storage that it was made of.
    pub closed spec fn storage_part(&self) -> S {
        *self.storage
    }

    /// Composes a provider of a crypto provider and a storage.
    pub fn new(crypto: &'a VaultCryptoProvider, storage: &'a S) -> (provider: Self)
        ensures
            provider.crypto_part() == *crypto,
            provider.storage_part() == *storage,
    {
        EngineOpenMlsProvider { crypto, storage }
    }

    /// The crypto provider.
    pub fn crypto(&self) -> (crypto: &VaultCryptoProvider)
        ensures
            *crypto == self.crypto_part(),
    {
        self.crypto
    }

    /// The source of randomness: the one behind the crypto provider.
    pub fn rand(&self) -> (rand: &RustCrypto)
        ensures
            *rand == self.crypto_part().inner(),
    {
        self.crypto.rand_provider()
    }

    /// The storage.
    pub fn storage(&self) -> (storage: &S)
        ensures
            *storage == self.storage_part(),
    {
        self.storage
    }
}

} // verus!
