//! Vault-backed HPKE crypto provider.
//!
//! [`VaultCryptoProvider`] wraps `RustCrypto` and takes two operations into its own
//! hands:
//!
//! - `derive_hpke_keypair`, for init keys and encryption keys, asks an
//!   [`HpkeVaultBackend`] for the public key at the next index of the vault's key tree,
//!   and hands out the path to it in the place of a private key.
//!
//! - `hpke_open` recognizes such a path where a private key is expected, has the vault
//!   do the Diffie-Hellman, and completes the decapsulation itself.
//!
//! Everything else is handed to `RustCrypto` unchanged.

use crate::backend::TAG_LEN;
use crate::hpke_vault::{is_key_type, HpkeVaultBackend, ENC, INIT};
use crate::key_schedule::{can_process, open_from_dh, opened_from_dh};
use crate::rust_crypto::{
    self, all_zeros, draws_keys, has_curve, has_private_key, is_derived, is_point, is_small_order,
    new_rust_crypto, rust_crypto_keypair, rust_crypto_open, sealed_to, x25519, x25519_public, SEALED_LEN, X25519_LEN,
};
use crate::types::{
    by_ordinal, from_ordinals, viewed, CryptoError, HpkeAeadType, HpkeCiphertext, HpkeConfig, HpkeKemType,
    HpkeKeyPair, HpkeKeyPurpose,
};
use crate::vault_path::{marked_key, vault_path};
use openmls_rust_crypto::RustCrypto;
use std::sync::Arc;
use vstd::prelude::*;

verus! {

/// HPKE crypto provider that optionally routes key operations to a vault.
///
/// Without a vault, all operations are handed to `RustCrypto`.
pub struct VaultCryptoProvider {
    inner: RustCrypto,
    vault: Option<Arc<dyn HpkeVaultBackend>>,
    init_counter: u32,
    enc_counter: u32,
}

/// The path in the vault at which a key pair for some purpose is derived next: the
/// counter of init keys or of encryption keys. There is none for other purposes, or
/// without a vault.
pub open spec fn next_path(
    vault: Option<Arc<dyn HpkeVaultBackend>>,
    init: u32,
    enc: u32,
    purpose: HpkeKeyPurpose,
) -> Option<(Seq<char>, u32)> {
    match (vault, purpose) {
        (Some(_), HpkeKeyPurpose::InitKey) => Some((INIT@, init)),
        (Some(_), HpkeKeyPurpose::EncryptionKey) => Some((ENC@, enc)),
        _ => None,
    }
}

/// A counter after a key pair was derived: one more if it was used, and back at zero
/// after its last value.
pub open spec fn next_counter(counter: u32, used: bool) -> u32 {
    if !used {
        counter
    } else if counter == u32::MAX {
        0
    } else {
        (counter + 1) as u32
    }
}

/// The key pair at a path, for the vault's reply to the question for its public key:
/// the path itself stands for the private key.
pub open spec fn pair_from_reply(
    key_type: Seq<char>,
    index: u32,
    reply: Result<Seq<u8>, CryptoError>,
) -> Result<(Seq<u8>, Seq<u8>), CryptoError> {
    match reply {
        Ok(public) => Ok((vault_path(key_type, index), public)),
        Err(error) => Err(error),
    }
}

/// What deriving a key pair may give: at a path in the vault, what the vault's reply
/// makes of it; else what `RustCrypto` derives.
pub open spec fn derive_outcome(
    vault: Option<Arc<dyn HpkeVaultBackend>>,
    path: Option<(Seq<char>, u32)>,
    config: HpkeConfig,
    ikm: Seq<u8>,
    r: Result<(Seq<u8>, Seq<u8>), CryptoError>,
) -> bool {
    match (vault, path) {
        (Some(v), Some((key_type, index))) => exists|reply: Result<Seq<u8>, CryptoError>| #[trigger]
            v.pubkey_reply(key_type, index, reply) && r == pair_from_reply(key_type, index, reply),
        _ => r == rust_crypto_keypair(config, ikm) && raw_pair(config, r),
    }
}

/// What is known of a key pair that `RustCrypto` derives.
pub open spec fn raw_pair(
    config: HpkeConfig,
    r: Result<(Seq<u8>, Seq<u8>), CryptoError>,
) -> bool {
    &&& r matches Err(error) ==> error == CryptoError::CryptoLibraryError
    &&& !has_curve(config.0) ==> r is Err
    &&& config.0 == HpkeKemType::DhKem25519 ==> (r matches Ok((private, public)) && private.len()
        == X25519_LEN && public == x25519_public(private))
}

/// What opening a ciphertext gives for the vault's two replies: an error that either
/// holds, or what the Diffie-Hellman value and the public key open.
pub open spec fn opened_from_replies(
    config: HpkeConfig,
    c: (Seq<u8>, Seq<u8>),
    dh: Result<Seq<u8>, CryptoError>,
    pk_r: Result<Seq<u8>, CryptoError>,
    info: Seq<u8>,
    aad: Seq<u8>,
) -> Result<Seq<u8>, CryptoError> {
    match (dh, pk_r) {
        (Err(error), _) => Err(error),
        (_, Err(error)) => Err(error),
        (Ok(dh), Ok(pk_r)) => opened_from_dh(config, c.0, c.1, dh, pk_r, info, aad),
    }
}

/// What opening a ciphertext with the key at a path in the vault may give. The vault is
/// asked for the Diffie-Hellman value with the encapsulated key and, unless it has
/// replied with an error, for the public key.
pub open spec fn vault_open_outcome(
    vault: Option<Arc<dyn HpkeVaultBackend>>,
    config: HpkeConfig,
    c: (Seq<u8>, Seq<u8>),
    key_type: Seq<char>,
    index: u32,
    info: Seq<u8>,
    aad: Seq<u8>,
    r: Result<Seq<u8>, CryptoError>,
) -> bool {
    match vault {
        None => r == Err::<Seq<u8>, CryptoError>(CryptoError::CryptoLibraryError),
        Some(v) => exists|dh: Result<Seq<u8>, CryptoError>| #[trigger]
            v.dh_reply(key_type, index, c.0, dh) && match dh {
                Err(error) => r == Err::<Seq<u8>, CryptoError>(error),
                Ok(_) => exists|pk_r: Result<Seq<u8>, CryptoError>| #[trigger]
                    v.pubkey_reply(key_type, index, pk_r) && r == opened_from_replies(
                        config,
                        c,
                        dh,
                        pk_r,
                        info,
                        aad,
                    ),
            },
    }
}

/// What is known of opening a ciphertext with `RustCrypto` and a raw private key.
pub open spec fn raw_open(
    config: HpkeConfig,
    c: (Seq<u8>, Seq<u8>),
    sk: Seq<u8>,
    info: Seq<u8>,
    aad: Seq<u8>,
    r: Result<Seq<u8>, CryptoError>,
) -> bool {
    &&& r matches Err(error) ==> error == CryptoError::HpkeDecryptionError
    &&& !has_curve(config.0) ==> r is Err
    &&& config.0 == HpkeKemType::DhKem25519 ==> if sk.len() == X25519_LEN && c.0.len()
        == X25519_LEN && x25519(sk, c.0) != all_zeros() {
        r == opened_from_dh(config, c.0, c.1, x25519(sk, c.0), x25519_public(sk), info, aad)
    } else {
        r is Err
    }
}

/// The key in the vault with which a ciphertext is opened, if it is not opened by
/// `RustCrypto`: there is a vault, and the private key bytes stand for one of its keys.
pub open spec fn routed(vault: Option<Arc<dyn HpkeVaultBackend>>, sk: Seq<u8>) -> Option<
    (Seq<char>, u32),
> {
    match vault {
        Some(_) => marked_key(sk),
        None => None,
    }
}

/// What opening a ciphertext may give: with the path of a key in the vault for a private
/// key, what the vault makes of it; else what `RustCrypto` opens with the raw key.
pub open spec fn open_outcome(
    vault: Option<Arc<dyn HpkeVaultBackend>>,
    config: HpkeConfig,
    c: (Seq<u8>, Seq<u8>),
    sk: Seq<u8>,
    info: Seq<u8>,
    aad: Seq<u8>,
    r: Result<Seq<u8>, CryptoError>,
) -> bool {
    match routed(vault, sk) {
        Some((key_type, index)) => vault_open_outcome(
            vault,
            config,
            c,
            key_type,
            index,
            info,
            aad,
            r,
        ),
        None => r == rust_crypto_open(config, c.0, c.1, sk, info, aad) && raw_open(
            config,
            c,
            sk,
            info,
            aad,
            r,
        ),
    }
}

/// Whether the vault may give both replies that opening a ciphertext takes: the
/// Diffie-Hellman value with an encapsulated key, and the public key.
pub open spec fn may_reply(
    vault: Option<Arc<dyn HpkeVaultBackend>>,
    key_type: Seq<char>,
    index: u32,
    enc: Seq<u8>,
) -> bool {
    match vault {
        Some(v) => exists|dh: Seq<u8>, pk_r: Seq<u8>| #[trigger]
            v.dh_reply(key_type, index, enc, Ok(dh)) && #[trigger] v.pubkey_reply(
                key_type,
                index,
                Ok(pk_r),
            ),
        None => false,
    }
}

/// Whether a configuration has a key schedule, and its encryption can be run on a
/// ciphertext.
pub open spec fn can_open(config: HpkeConfig, ct: Seq<u8>) -> bool {
    config.0 != HpkeKemType::XWingKemDraft6 && can_process(config.2, ct.len() - TAG_LEN)
}

/// What sealing a message to a public key may give. The encapsulated key is random, so
/// there are many ciphertexts; all of them hold the message.
pub open spec fn seal_outcome(
    config: HpkeConfig,
    pk_r: Seq<u8>,
    info: Seq<u8>,
    aad: Seq<u8>,
    pt: Seq<u8>,
    r: Result<(Seq<u8>, Seq<u8>), CryptoError>,
) -> bool {
    &&& r matches Err(error) ==> error == CryptoError::CryptoLibraryError
    &&& r matches Ok(c) ==> c.1.len() == pt.len() + TAG_LEN && sealed_to(
        config,
        pk_r,
        info,
        aad,
        pt,
        c,
    )
    &&& !has_curve(config.0) || config.2 == HpkeAeadType::Export ==> r is Err
    &&& config.0 == HpkeKemType::DhKem25519 && (pk_r.len() != X25519_LEN || is_small_order(pk_r))
        ==> r is Err
    &&& config.0 == HpkeKemType::DhKem25519 && config.2 != HpkeAeadType::Export && (
    has_private_key(pk_r) || pk_r.len() == X25519_LEN && !is_small_order(pk_r)) && aad.len()
        <= SEALED_LEN && pt.len() <= SEALED_LEN ==> r is Ok
    &&& config.0 == HpkeKemType::DhKemP256 && !is_point(config, pk_r) ==> r is Err
    &&& config.0 == HpkeKemType::DhKemP256 && config.2 != HpkeAeadType::Export && (is_derived(
        config,
        pk_r,
    ) || is_point(config, pk_r)) && draws_keys(config) && aad.len() <= SEALED_LEN && pt.len()
        <= SEALED_LEN ==> r is Ok
}

/// Whether `RustCrypto` may give this reply when it is asked to seal a message.
pub closed spec fn seal_reply(
    inner: &RustCrypto,
    config: HpkeConfig,
    pk_r: &[u8],
    info: &[u8],
    aad: &[u8],
    ptxt: &[u8],
    r: Result<HpkeCiphertext, CryptoError>,
) -> bool {
    call_ensures(rust_crypto::hpke_seal, (inner, config, pk_r, info, aad, ptxt), by_ordinal(r))
}

/// What is sealed is what `RustCrypto` seals, failures included: just the replies that
/// the call may give for these very arguments.
pub(crate) proof fn sealing_is_the_call(
    inner: &RustCrypto,
    config: HpkeConfig,
    pk_r: &[u8],
    info: &[u8],
    aad: &[u8],
    ptxt: &[u8],
    r: Result<HpkeCiphertext, CryptoError>,
)
    ensures
        seal_reply(inner, config, pk_r, info, aad, ptxt, r) <==> call_ensures(
            rust_crypto::hpke_seal,
            (inner, config, pk_r, info, aad, ptxt),
            match r {
                Ok(c) => Ok(c),
                Err(error) => Err(error.ordinal()),
            },
        ),
{
}

/// Makes the key pair at a path out of the vault's reply to the question for its public
/// key.
pub fn vault_keypair(
    key_type: &str,
    index: u32,
    reply: Result<Vec<u8>, CryptoError>,
) -> (r: Result<HpkeKeyPair, CryptoError>)
    ensures
        viewed(r) == pair_from_reply(key_type@, index, viewed(reply)),
{
    match reply {
        Ok(public) => {
            let private = VaultCryptoProvider::encode_vault_path(key_type, index);
            Ok(HpkeKeyPair { private, public })
        },
        Err(error) => Err(error),
    }
}

/// Opens a ciphertext from the vault's two replies.
pub fn open_from_replies(
    config: HpkeConfig,
    input: &HpkeCiphertext,
    dh: Result<Vec<u8>, CryptoError>,
    pk_r: Result<Vec<u8>, CryptoError>,
    info: &[u8],
    aad: &[u8],
) -> (r: Result<Vec<u8>, CryptoError>)
    requires
        dh is Ok && pk_r is Ok ==> can_open(config, input.ciphertext@),
    ensures
        viewed(r) == opened_from_replies(config, input@, viewed(dh), viewed(pk_r), info@, aad@),
        config.2 == HpkeAeadType::Export ==> r is Err,
        r matches Ok(pt) ==> pt@.len() + TAG_LEN == input.ciphertext@.len(),
{
    match (dh, pk_r) {
        (Ok(dh), Ok(pk_r)) => open_from_dh(config, input, &dh, &pk_r, info, aad),
        (Err(error), _) => Err(error),
        (_, Err(error)) => Err(error),
    }
}

impl VaultCryptoProvider {
    /// The provider that stands behind the vault.
    pub closed spec fn inner(&self) -> RustCrypto {
        self.inner
    }

    /// The vault, if there is one.
    pub closed spec fn vault(&self) -> Option<Arc<dyn HpkeVaultBackend>> {
        self.vault
    }

    /// The index of the next init key.
    pub closed spec fn init_counter(&self) -> u32 {
        self.init_counter
    }

    /// The index of the next encryption key.
    pub closed spec fn enc_counter(&self) -> u32 {
        self.enc_counter
    }

    /// Creates a provider without a vault.
    pub fn new() -> (provider: Self)
        ensures
            provider.vault() is None,
            provider.init_counter() == 0,
            provider.enc_counter() == 0,
    {
        VaultCryptoProvider {
            inner: new_rust_crypto(),
            vault: None,
            init_counter: 0,
            enc_counter: 0,
        }
    }

    /// Creates a provider backed by a vault.
    ///
    /// `init_index` and `enc_index` are the starting counter values for init keys and
    /// encryption keys.
    pub fn with_vault(
        vault: Arc<dyn HpkeVaultBackend>,
        init_index: u32,
        enc_index: u32,
    ) -> (provider: Self)
        ensures
            provider.vault() == Some(vault),
            provider.init_counter() == init_index,
            provider.enc_counter() == enc_index,
    {
        let vault = Some(vault);
        VaultCryptoProvider {
            inner: new_rust_crypto(),
            vault,
            init_counter: init_index,
            enc_counter: enc_index,
        }
    }

    /// The inner `RustCrypto` provider, as a source of randomness.
    pub fn rand_provider(&self) -> (rand: &RustCrypto)
        ensures
            *rand == self.inner(),
    {
        &self.inner
    }

    /// HPKE decryption with a private key in the vault: X25519 Diffie-Hellman by the
    /// vault, then the rest of the decapsulation, the key schedule and the decryption.
    /// The absence of a vault is an error, and so is every error of the vault.
    pub fn vault_hpke_open(
        &self,
        config: HpkeConfig,
        input: &HpkeCiphertext,
        key_type: &str,
        index: u32,
        info: &[u8],
        aad: &[u8],
    ) -> (r: Result<Vec<u8>, CryptoError>)
        requires
            self.vault() is Some ==> is_key_type(key_type@),
            may_reply(self.vault(), key_type@, index, input.kem_output@) ==> can_open(
                config,
                input.ciphertext@,
            ),
        ensures
            vault_open_outcome(
                self.vault(),
                config,
                input@,
                key_type@,
                index,
                info@,
                aad@,
                viewed(r),
            ),
            config.2 == HpkeAeadType::Export ==> r is Err,
            r matches Ok(pt) ==> pt@.len() + TAG_LEN == input.ciphertext@.len(),
    {
        match &self.vault {
            None => Err(CryptoError::CryptoLibraryError),
            Some(vault) => {
                let dh = vault.dh(key_type, index, &input.kem_output);
                if dh.is_err() {
                    return dh;
                }
                let pk_r = vault.pubkey_at(key_type, index);
                assert(dh matches Ok(value) ==> vault.dh_reply(
                    key_type@,
                    index,
                    input.kem_output@,
                    Ok(value@),
                ));
                assert(pk_r matches Ok(key) ==> vault.pubkey_reply(key_type@, index, Ok(key@)));
                open_from_replies(config, input, dh, pk_r, info, aad)
            },
        }
    }

    /// HPKE decryption. Where there is a vault, and the private key is the path of one
    /// of its keys, the vault's key is used; any other bytes are a raw private key.
    pub fn hpke_open(
        &self,
        config: HpkeConfig,
        input: &HpkeCiphertext,
        sk_r: &[u8],
        info: &[u8],
        aad: &[u8],
    ) -> (r: Result<Vec<u8>, CryptoError>)
        requires
            match routed(self.vault(), sk_r@) {
                Some((key_type, index)) => may_reply(
                    self.vault(),
                    key_type,
                    index,
                    input.kem_output@,
                ) ==> can_open(config, input.ciphertext@),
                None => can_open(config, input.ciphertext@),
            },
        ensures
            open_outcome(self.vault(), config, input@, sk_r@, info@, aad@, viewed(r)),
            config.2 == HpkeAeadType::Export ==> r is Err,
            r matches Ok(pt) ==> pt@.len() + TAG_LEN == input.ciphertext@.len(),
    {
        match (&self.vault, Self::marked_vault_key(sk_r)) {
            (Some(_), Some((key_type, index))) => self.vault_hpke_open(
                config,
                input,
                key_type,
                index,
                info,
                aad,
            ),
            _ => {
                let opened = rust_crypto::hpke_open(
                    &self.inner,
                    config,
                    &input.kem_output,
                    &input.ciphertext,
                    sk_r,
                    info,
                    aad,
                );
                from_ordinals(opened)
            },
        }
    }

    /// HPKE encryption to a public key, whether its private key is in a vault or not.
    pub fn hpke_seal(
        &self,
        config: HpkeConfig,
        pk_r: &[u8],
        info: &[u8],
        aad: &[u8],
        ptxt: &[u8],
    ) -> (r: Result<HpkeCiphertext, CryptoError>)
        requires
            config.0 != HpkeKemType::XWingKemDraft6,
            can_process(config.2, ptxt@.len() as int),
        ensures
            seal_outcome(config, pk_r@, info@, aad@, ptxt@, viewed(r)),
            seal_reply(&self.inner(), config, pk_r, info, aad, ptxt, r),
    {
        from_ordinals(rust_crypto::hpke_seal(&self.inner, config, pk_r, info, aad, ptxt))
    }

    /// Derives an HPKE key pair. With a vault, an init key or encryption key is the one
    /// at the next index of its kind, whose index is then used up, even if the vault
    /// replies with an error; all other key pairs are derived by `RustCrypto`.
    pub fn derive_hpke_keypair(
        &mut self,
        config: HpkeConfig,
        ikm: &[u8],
        purpose: HpkeKeyPurpose,
    ) -> (r: Result<HpkeKeyPair, CryptoError>)
        requires
            next_path(
                old(self).vault(),
                old(self).init_counter(),
                old(self).enc_counter(),
                purpose,
            ) is None ==> config.0 != HpkeKemType::XWingKemDraft6,
        ensures
            derive_outcome(
                old(self).vault(),
                next_path(
                    old(self).vault(),
                    old(self).init_counter(),
                    old(self).enc_counter(),
                    purpose,
                ),
                config,
                ikm@,
                viewed(r),
            ),
            final(self).vault() == old(self).vault(),
            final(self).inner() == old(self).inner(),
            final(self).init_counter() == next_counter(
                old(self).init_counter(),
                old(self).vault() is Some && purpose == HpkeKeyPurpose::InitKey,
            ),
            final(self).enc_counter() == next_counter(
                old(self).enc_counter(),
                old(self).vault() is Some && purpose == HpkeKeyPurpose::EncryptionKey,
            ),
    {
        match (&self.vault, purpose) {
            (Some(vault), HpkeKeyPurpose::InitKey) => {
                let index = self.init_counter;
                self.init_counter = index.wrapping_add(1);
                vault_keypair(INIT, index, vault.pubkey_at(INIT, index))
            },
            (Some(vault), HpkeKeyPurpose::EncryptionKey) => {
                let index = self.enc_counter;
                self.enc_counter = index.wrapping_add(1);
                vault_keypair(ENC, index, vault.pubkey_at(ENC, index))
            },
            _ => from_ordinals(rust_crypto::derive_hpke_keypair(&self.inner, config, ikm)),
        }
    }
}

impl Default for VaultCryptoProvider {
    fn default() -> (provider: Self)
        ensures
            provider.vault() is None,
            provider.init_counter() == 0,
            provider.enc_counter() == 0,
    {
        Self::new()
    }
}

} // verus!
