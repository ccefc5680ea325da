//! Deriving key pairs, and the counters.

use std::sync::{Arc, Mutex};
use vault_hpke::hpke_vault::HpkeVaultBackend;
use vault_hpke::types::{
    CryptoError, HpkeAeadType, HpkeConfig, HpkeKdfType, HpkeKemType, HpkeKeyPurpose,
};
use vault_hpke::vault_crypto::VaultCryptoProvider;

/// A vault whose public keys spell out their paths, and which fails on demand.
struct SpellingVault {
    failing: Mutex<bool>,
}

impl SpellingVault {
    fn new() -> Arc<Self> {
        Arc::new(SpellingVault {
            failing: Mutex::new(false),
        })
    }

    fn set_failing(&self, failing: bool) {
        *self.failing.lock().unwrap() = failing;
    }
}

impl HpkeVaultBackend for SpellingVault {
    fn pubkey_at(&self, key_type: &str, index: u32) -> Result<Vec<u8>, CryptoError> {
        if *self.failing.lock().unwrap() {
            Err(CryptoError::InvalidPublicKey)
        } else {
            Ok(format!("key {key_type} {index}").into_bytes())
        }
    }

    fn dh(&self, _: &str, _: u32, _: &[u8]) -> Result<Vec<u8>, CryptoError> {
        Err(CryptoError::CryptoLibraryError)
    }
}

fn config() -> HpkeConfig {
    HpkeConfig(
        HpkeKemType::DhKem25519,
        HpkeKdfType::HkdfSha256,
        HpkeAeadType::AesGcm128,
    )
}

fn private_half(provider: &mut VaultCryptoProvider, purpose: HpkeKeyPurpose) -> Vec<u8> {
    provider
        .derive_hpke_keypair(config(), &[5; 32], purpose)
        .unwrap()
        .private
}

#[test]
fn counters_start_where_they_are_told_and_count_their_own_keys() {
    let mut provider = VaultCryptoProvider::with_vault(SpellingVault::new(), 3, 70);
    assert_eq!(private_half(&mut provider, HpkeKeyPurpose::InitKey), b"vault:init/3");
    assert_eq!(private_half(&mut provider, HpkeKeyPurpose::EncryptionKey), b"vault:enc/70");
    assert_eq!(private_half(&mut provider, HpkeKeyPurpose::EncryptionKey), b"vault:enc/71");
    private_half(&mut provider, HpkeKeyPurpose::PathSecret);
    private_half(&mut provider, HpkeKeyPurpose::ExternalPub);
    assert_eq!(private_half(&mut provider, HpkeKeyPurpose::InitKey), b"vault:init/4");
    assert_eq!(private_half(&mut provider, HpkeKeyPurpose::EncryptionKey), b"vault:enc/72");
}

#[test]
fn the_public_half_is_the_key_at_the_path() {
    let mut provider = VaultCryptoProvider::with_vault(SpellingVault::new(), 8, 9);
    let init = provider
        .derive_hpke_keypair(config(), b"unused", HpkeKeyPurpose::InitKey)
        .unwrap();
    assert_eq!(init.public, b"key init 8");
    let enc = provider
        .derive_hpke_keypair(config(), b"unused", HpkeKeyPurpose::EncryptionKey)
        .unwrap();
    assert_eq!(enc.public, b"key enc 9");
}

#[test]
fn counters_come_round() {
    let mut provider = VaultCryptoProvider::with_vault(SpellingVault::new(), u32::MAX, 0);
    assert_eq!(
        private_half(&mut provider, HpkeKeyPurpose::InitKey),
        b"vault:init/4294967295"
    );
    assert_eq!(private_half(&mut provider, HpkeKeyPurpose::InitKey), b"vault:init/0");
    assert_eq!(private_half(&mut provider, HpkeKeyPurpose::EncryptionKey), b"vault:enc/0");
}

#[test]
fn an_error_of_the_vault_uses_the_index_up() {
    let vault = SpellingVault::new();
    let mut provider = VaultCryptoProvider::with_vault(vault.clone(), 0, 0);
    vault.set_failing(true);
    for purpose in [
        HpkeKeyPurpose::InitKey,
        HpkeKeyPurpose::InitKey,
        HpkeKeyPurpose::EncryptionKey,
    ] {
        assert_eq!(
            provider.derive_hpke_keypair(config(), &[5; 32], purpose),
            Err(CryptoError::InvalidPublicKey)
        );
    }
    vault.set_failing(false);
    assert_eq!(private_half(&mut provider, HpkeKeyPurpose::InitKey), b"vault:init/2");
    assert_eq!(private_half(&mut provider, HpkeKeyPurpose::EncryptionKey), b"vault:enc/1");
}

#[test]
fn private_halves_do_not_repeat() {
    let mut provider = VaultCryptoProvider::with_vault(SpellingVault::new(), 4294967290, 4294967290);
    let mut seen = Vec::new();
    for _ in 0..10 {
        for purpose in [HpkeKeyPurpose::InitKey, HpkeKeyPurpose::EncryptionKey] {
            let private = private_half(&mut provider, purpose);
            assert!(!seen.contains(&private));
            seen.push(private);
        }
    }
}

#[test]
fn other_purposes_and_no_vault_leave_deriving_to_rust_crypto() {
    let mut with_vault = VaultCryptoProvider::with_vault(SpellingVault::new(), 0, 0);
    let mut without = VaultCryptoProvider::default();
    let expected = without
        .derive_hpke_keypair(config(), &[5; 32], HpkeKeyPurpose::InitKey)
        .unwrap();
    assert_eq!(expected.private.len(), 32);
    assert_eq!(expected.public.len(), 32);
    for purpose in [
        HpkeKeyPurpose::InitKey,
        HpkeKeyPurpose::EncryptionKey,
        HpkeKeyPurpose::PathSecret,
        HpkeKeyPurpose::ExternalPub,
    ] {
        assert_eq!(
            without.derive_hpke_keypair(config(), &[5; 32], purpose),
            Ok(expected.clone())
        );
    }
    for purpose in [HpkeKeyPurpose::PathSecret, HpkeKeyPurpose::ExternalPub] {
        assert_eq!(
            with_vault.derive_hpke_keypair(config(), &[5; 32], purpose),
            Ok(expected.clone())
        );
    }
    assert_ne!(
        without.derive_hpke_keypair(config(), &[6; 32], HpkeKeyPurpose::InitKey),
        Ok(expected)
    );
}

#[test]
fn keys_in_the_vault_are_derived_for_every_configuration() {
    let mut provider = VaultCryptoProvider::with_vault(SpellingVault::new(), 0, 0);
    let x_wing = HpkeConfig(
        HpkeKemType::XWingKemDraft6,
        HpkeKdfType::HkdfSha512,
        HpkeAeadType::Export,
    );
    let pair = provider
        .derive_hpke_keypair(x_wing, &[], HpkeKeyPurpose::InitKey)
        .unwrap();
    assert_eq!(pair.private, b"vault:init/0");
}

#[test]
fn there_are_no_raw_keys_without_a_curve() {
    let mut provider = VaultCryptoProvider::new();
    for kem in [HpkeKemType::DhKemP384, HpkeKemType::DhKemP521, HpkeKemType::DhKem448] {
        let config = HpkeConfig(kem, HpkeKdfType::HkdfSha256, HpkeAeadType::AesGcm128);
        assert_eq!(
            provider.derive_hpke_keypair(config, &[5; 32], HpkeKeyPurpose::InitKey),
            Err(CryptoError::CryptoLibraryError)
        );
    }
}

#[test]
fn every_derivation_at_a_path_gives_the_same_pair() {
    let mut one = VaultCryptoProvider::with_vault(SpellingVault::new(), 4, 0);
    let mut other = VaultCryptoProvider::with_vault(SpellingVault::new(), 4, 9);
    let p256 = HpkeConfig(
        HpkeKemType::DhKemP256,
        HpkeKdfType::HkdfSha256,
        HpkeAeadType::ChaCha20Poly1305,
    );
    assert_eq!(
        one.derive_hpke_keypair(config(), &[5; 32], HpkeKeyPurpose::InitKey),
        other.derive_hpke_keypair(p256, b"other", HpkeKeyPurpose::InitKey)
    );
    // Errors repeat as well.
    let vault = SpellingVault::new();
    vault.set_failing(true);
    let mut one = VaultCryptoProvider::with_vault(vault.clone(), 4, 0);
    let mut other = VaultCryptoProvider::with_vault(vault, 4, 0);
    assert_eq!(
        one.derive_hpke_keypair(config(), &[5; 32], HpkeKeyPurpose::InitKey),
        other.derive_hpke_keypair(p256, b"other", HpkeKeyPurpose::InitKey)
    );
}

#[test]
fn indices_grow_until_the_counter_comes_round() {
    let mut provider = VaultCryptoProvider::with_vault(SpellingVault::new(), 4294967280, 95);
    let mut last = None;
    for _ in 0..16 {
        private_half(&mut provider, HpkeKeyPurpose::EncryptionKey);
        let private = private_half(&mut provider, HpkeKeyPurpose::InitKey);
        let (_, index) = VaultCryptoProvider::parse_vault_path(&private).unwrap();
        assert!(last < Some(index));
        last = Some(index);
    }
    assert_eq!(last, Some(u32::MAX));
}
