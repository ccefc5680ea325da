//! The provider with an X25519 key in the vault.

use hpke_rs_crypto::types as hpke_types;
use hpke_rs_rust_crypto::HpkeRustCrypto;
use openmls_rust_crypto::RustCrypto;
use openmls_traits::crypto::OpenMlsCrypto;
use openmls_traits::types::Ciphersuite;
use std::sync::Arc;
use vault_hpke::hpke_vault::HpkeVaultBackend;
use vault_hpke::key_schedule::{
    aead_algorithm, extract_and_expand, kdf_algorithm, kem_algorithm, kem_suite_id,
};
use vault_hpke::types::{
    CryptoError, HpkeAeadType, HpkeCiphertext, HpkeConfig, HpkeKdfType, HpkeKemType, HpkeKeyPurpose,
};
use vault_hpke::vault_crypto::VaultCryptoProvider;
use vault_hpke::vault_path::VAULT_PREFIX;
use x25519_dalek::{PublicKey, StaticSecret};

/// A vault that holds one known X25519 secret at every path.
struct TestVault {
    secret: StaticSecret,
}

impl TestVault {
    fn new(secret_bytes: [u8; 32]) -> Self {
        Self {
            secret: StaticSecret::from(secret_bytes),
        }
    }

    fn public_key(&self) -> PublicKey {
        PublicKey::from(&self.secret)
    }
}

impl HpkeVaultBackend for TestVault {
    fn pubkey_at(&self, _key_type: &str, _index: u32) -> Result<Vec<u8>, CryptoError> {
        Ok(self.public_key().as_bytes().to_vec())
    }

    fn dh(&self, _key_type: &str, _index: u32, peer_public: &[u8]) -> Result<Vec<u8>, CryptoError> {
        let peer: [u8; 32] = peer_public
            .try_into()
            .map_err(|_| CryptoError::CryptoLibraryError)?;
        let peer_pk = PublicKey::from(peer);
        let shared = self.secret.diffie_hellman(&peer_pk);
        Ok(shared.as_bytes().to_vec())
    }
}

/// The HPKE configuration of the ciphersuite that the tests use, in the library's terms.
fn chacha_config() -> HpkeConfig {
    HpkeConfig(
        HpkeKemType::DhKem25519,
        HpkeKdfType::HkdfSha256,
        HpkeAeadType::ChaCha20Poly1305,
    )
}

fn ciphertext(ct: &openmls_traits::types::HpkeCiphertext) -> HpkeCiphertext {
    HpkeCiphertext {
        kem_output: ct.kem_output.as_slice().to_vec(),
        ciphertext: ct.ciphertext.as_slice().to_vec(),
    }
}

#[test]
fn hpke_seal_then_vault_open_roundtrip() {
    let ciphersuite = Ciphersuite::MLS_128_DHKEMX25519_CHACHA20POLY1305_SHA256_Ed25519;

    // Bob's vault with a deterministic secret.
    let bob_secret = [42u8; 32];
    let vault = Arc::new(TestVault::new(bob_secret));
    let bob_pk = vault.public_key().as_bytes().to_vec();

    // Alice seals to Bob's public key.
    let inner = RustCrypto::default();
    let info = b"test info";
    let aad = b"test aad";
    let plaintext = b"hello from Alice";

    let ct = inner
        .hpke_seal(ciphersuite.hpke_config(), &bob_pk, info, aad, plaintext)
        .expect("seal should succeed");

    // Bob decrypts via the vault.
    let provider = VaultCryptoProvider::with_vault(vault, 0, 0);
    let sk_r = VaultCryptoProvider::encode_vault_path("init", 0);

    let recovered = provider
        .hpke_open(chacha_config(), &ciphertext(&ct), &sk_r, info, aad)
        .expect("vault hpke_open should succeed");

    assert_eq!(recovered, plaintext);
}

#[test]
fn extract_and_expand_matches_hpke_rs() {
    let cs = Ciphersuite::MLS_128_DHKEMX25519_CHACHA20POLY1305_SHA256_Ed25519;

    // A key pair with real raw private key bytes.
    let inner = RustCrypto::default();
    let kp = inner
        .derive_hpke_keypair(cs.hpke_config(), &[0u8; 32])
        .unwrap();
    let pk_r = &kp.public;
    let sk_r_raw: &[u8] = &kp.private;

    // Seal.
    let info = b"test";
    let aad = b"";
    let ptxt = b"hello";
    let ct = inner
        .hpke_seal(cs.hpke_config(), pk_r, info, aad, ptxt)
        .unwrap();

    // Opening with the raw key works.
    let recovered = inner
        .hpke_open(cs.hpke_config(), &ct, sk_r_raw, info, aad)
        .expect("standard open should work");
    assert_eq!(recovered, ptxt);

    // Now step by step: Diffie-Hellman, extract_and_expand, key schedule.
    let enc = ct.kem_output.as_slice();
    let sk_bytes: [u8; 32] = sk_r_raw.try_into().unwrap();
    let sk = StaticSecret::from(sk_bytes);
    let enc_arr: [u8; 32] = enc.try_into().unwrap();
    let enc_pk = PublicKey::from(enc_arr);
    let dh_result = sk.diffie_hellman(&enc_pk);

    let pk_r_for_ctx = PublicKey::from(&sk).to_bytes();
    assert_eq!(pk_r_for_ctx.as_slice(), pk_r.as_slice(), "pk_r derivation mismatch");

    let mut kem_context = Vec::new();
    kem_context.extend_from_slice(enc);
    kem_context.extend_from_slice(&pk_r_for_ctx);

    let config = chacha_config();
    let shared_secret =
        extract_and_expand(dh_result.as_bytes(), &kem_context, &kem_suite_id(config.0));

    let hpke = hpke_rs::Hpke::<HpkeRustCrypto>::new(
        hpke_rs::Mode::Base,
        hpke_types::KemAlgorithm::try_from(kem_algorithm(config.0).id()).unwrap(),
        hpke_types::KdfAlgorithm::try_from(kdf_algorithm(config.1).id()).unwrap(),
        hpke_types::AeadAlgorithm::try_from(aead_algorithm(config.2).id()).unwrap(),
    );
    let mut ctx = hpke
        .key_schedule(&shared_secret, info, &[], &[])
        .expect("key_schedule should succeed");
    let manual_recovered = ctx
        .open(aad, ct.ciphertext.as_slice())
        .expect("manual open should succeed");
    assert_eq!(manual_recovered, ptxt);
}

#[test]
fn vault_dh_matches_dalek() {
    let bob_secret_bytes = [42u8; 32];
    let vault = TestVault::new(bob_secret_bytes);
    let bob_sk = StaticSecret::from(bob_secret_bytes);

    // Alice's ephemeral key.
    let alice_secret = StaticSecret::from([99u8; 32]);
    let alice_pk = PublicKey::from(&alice_secret);

    let vault_dh = vault
        .dh("init", 0, alice_pk.as_bytes())
        .expect("vault dh should succeed");
    let dalek_dh = bob_sk.diffie_hellman(&alice_pk);

    assert_eq!(vault_dh, dalek_dh.as_bytes().to_vec());
}

#[test]
fn parse_vault_path_valid() {
    assert_eq!(
        VaultCryptoProvider::parse_vault_path(b"vault:init/3"),
        Some(("init", 3))
    );
    assert_eq!(
        VaultCryptoProvider::parse_vault_path(b"vault:enc/42"),
        Some(("enc", 42))
    );
}

#[test]
fn parse_vault_path_invalid() {
    assert_eq!(VaultCryptoProvider::parse_vault_path(b"notavault"), None);
    assert_eq!(VaultCryptoProvider::parse_vault_path(b"vault:"), None);
    assert_eq!(VaultCryptoProvider::parse_vault_path(b"vault:init"), None);
    assert_eq!(
        VaultCryptoProvider::parse_vault_path(b"vault:init/abc"),
        None
    );
}

#[test]
fn encode_vault_path_roundtrip() {
    let encoded = VaultCryptoProvider::encode_vault_path("init", 7);
    let (key_type, index) = VaultCryptoProvider::parse_vault_path(&encoded).unwrap();
    assert_eq!(key_type, "init");
    assert_eq!(index, 7);
}

#[test]
fn no_vault_delegates_to_rustcrypto() {
    let mut provider = VaultCryptoProvider::new();
    let ikm = [0u8; 32];
    // With no vault, all purposes are left to RustCrypto.
    let kp = provider
        .derive_hpke_keypair(chacha_config(), &ikm, HpkeKeyPurpose::InitKey)
        .expect("derive should succeed");
    // The private key is actual key bytes, not a vault path.
    assert!(!kp.private.starts_with(VAULT_PREFIX.as_bytes()));
}
