//! Sealing, opening and exporting, with the vault and without.

use openmls_rust_crypto::RustCrypto;
use openmls_traits::crypto::OpenMlsCrypto;
use openmls_traits::types::{
    CryptoError as MlsError, HpkeAeadType as MlsAead, HpkeCiphertext as MlsCiphertext,
    HpkeConfig as MlsConfig, HpkeKdfType as MlsKdf, HpkeKemType as MlsKem,
};
use sha2::{Digest, Sha256};
use std::sync::{Arc, Mutex};
use vault_hpke::hpke_vault::HpkeVaultBackend;
use vault_hpke::key_schedule::{
    aead_algorithm, extract_and_expand, kdf_algorithm, kem_algorithm, kem_suite_id, open_from_dh,
};
use vault_hpke::types::{
    CryptoError, HpkeAeadType, HpkeCiphertext, HpkeConfig, HpkeKdfType, HpkeKemType, HpkeKeyPurpose,
};
use vault_hpke::vault_crypto::{open_from_replies, VaultCryptoProvider};
use x25519_dalek::{PublicKey, StaticSecret};

fn hex(text: &str) -> Vec<u8> {
    (0..text.len() / 2)
        .map(|i| u8::from_str_radix(&text[2 * i..2 * i + 2], 16).unwrap())
        .collect()
}

/// A vault with one X25519 key, which keeps a record of what it was asked.
struct RecordingVault {
    secret: [u8; 32],
    asked: Mutex<Vec<String>>,
    dh_error: Option<CryptoError>,
    pubkey_error: Option<CryptoError>,
}

impl RecordingVault {
    fn new(secret: [u8; 32]) -> Self {
        RecordingVault {
            secret,
            asked: Mutex::new(Vec::new()),
            dh_error: None,
            pubkey_error: None,
        }
    }

    fn record(&self) -> Vec<String> {
        self.asked.lock().unwrap().clone()
    }
}

impl HpkeVaultBackend for RecordingVault {
    fn pubkey_at(&self, key_type: &str, index: u32) -> Result<Vec<u8>, CryptoError> {
        self.asked.lock().unwrap().push(format!("pubkey {key_type} {index}"));
        match self.pubkey_error {
            Some(error) => Err(error),
            None => Ok(PublicKey::from(&StaticSecret::from(self.secret)).as_bytes().to_vec()),
        }
    }

    fn dh(&self, key_type: &str, index: u32, peer_public: &[u8]) -> Result<Vec<u8>, CryptoError> {
        self.asked.lock().unwrap().push(format!("dh {key_type} {index}"));
        if let Some(error) = self.dh_error {
            return Err(error);
        }
        let peer: [u8; 32] = peer_public.try_into().map_err(|_| CryptoError::InvalidPublicKey)?;
        let shared = StaticSecret::from(self.secret).diffie_hellman(&PublicKey::from(peer));
        Ok(shared.as_bytes().to_vec())
    }
}

fn x25519_config(aead: HpkeAeadType) -> HpkeConfig {
    HpkeConfig(HpkeKemType::DhKem25519, HpkeKdfType::HkdfSha256, aead)
}

/// The first message of appendix A.1.1 of RFC 9180, in base mode.
struct Vector {
    config: HpkeConfig,
    ikm_r: Vec<u8>,
    sk_r: Vec<u8>,
    pk_r: Vec<u8>,
    info: Vec<u8>,
    aad: Vec<u8>,
    pt: Vec<u8>,
    shared_secret: Vec<u8>,
    input: HpkeCiphertext,
}

fn vector() -> Vector {
    Vector {
        config: x25519_config(HpkeAeadType::AesGcm128),
        ikm_r: hex("6db9df30aa07dd42ee5e8181afdb977e538f5e1fec8a06223f33f7013e525037"),
        sk_r: hex("4612c550263fc8ad58375df3f557aac531d26850903e55a9f23f21d8534e8ac8"),
        pk_r: hex("3948cfe0ad1ddb695d780e59077195da6c56506b027329794ab02bca80815c4d"),
        info: hex("4f6465206f6e2061204772656369616e2055726e"),
        aad: hex("436f756e742d30"),
        pt: hex("4265617574792069732074727574682c20747275746820626561757479"),
        shared_secret: hex("fe0e18c9f024ce43799ae393c7e8fe8fce9d218875e8227b0187c04e7d2ea1fc"),
        input: HpkeCiphertext {
            kem_output: hex("37fda3567bdbd628e88668c3c8d7e97d1d1253b6d4ea6d44c150f741f1bf4431"),
            ciphertext: hex(
                "f938558b5d72f1a23810b4be2ab4f84331acc02fc97babc53a52ae8218a355a96d8770ac83d07bea87e13c512a",
            ),
        },
    }
}

fn dh(sk: &[u8], pk: &[u8]) -> Vec<u8> {
    let sk: [u8; 32] = sk.try_into().unwrap();
    let pk: [u8; 32] = pk.try_into().unwrap();
    StaticSecret::from(sk)
        .diffie_hellman(&PublicKey::from(pk))
        .as_bytes()
        .to_vec()
}

#[test]
fn suite_identifiers_name_the_mechanism() {
    assert_eq!(kem_suite_id(HpkeKemType::DhKem25519), *b"KEM\x00\x20");
    assert_eq!(kem_suite_id(HpkeKemType::DhKemP256), *b"KEM\x00\x10");
    assert_eq!(kem_suite_id(HpkeKemType::DhKemP384), *b"KEM\x00\x11");
    assert_eq!(kem_suite_id(HpkeKemType::DhKemP521), *b"KEM\x00\x12");
    assert_eq!(kem_suite_id(HpkeKemType::DhKem448), *b"KEM\x00\x21");
    assert_eq!(kem_suite_id(HpkeKemType::XWingKemDraft6), *b"KEM\x00\x4D");
}

#[test]
fn algorithms_have_their_registered_identifiers() {
    assert_eq!(kem_algorithm(HpkeKemType::DhKemP256).id(), 0x0010);
    assert_eq!(kem_algorithm(HpkeKemType::DhKemP384).id(), 0x0011);
    assert_eq!(kem_algorithm(HpkeKemType::DhKemP521).id(), 0x0012);
    assert_eq!(kem_algorithm(HpkeKemType::DhKem25519).id(), 0x0020);
    assert_eq!(kem_algorithm(HpkeKemType::DhKem448).id(), 0x0021);
    assert_eq!(kdf_algorithm(HpkeKdfType::HkdfSha256).id(), 0x0001);
    assert_eq!(kdf_algorithm(HpkeKdfType::HkdfSha384).id(), 0x0002);
    assert_eq!(kdf_algorithm(HpkeKdfType::HkdfSha512).id(), 0x0003);
    assert_eq!(aead_algorithm(HpkeAeadType::AesGcm128).id(), 0x0001);
    assert_eq!(aead_algorithm(HpkeAeadType::AesGcm256).id(), 0x0002);
    assert_eq!(aead_algorithm(HpkeAeadType::ChaCha20Poly1305).id(), 0x0003);
    assert_eq!(aead_algorithm(HpkeAeadType::Export).id(), 0xFFFF);
}

#[test]
fn the_shared_secret_is_the_one_of_the_rfc() {
    let v = vector();
    let mut kem_context = v.input.kem_output.clone();
    kem_context.extend_from_slice(&v.pk_r);
    let secret = extract_and_expand(
        &dh(&v.sk_r, &v.input.kem_output),
        &kem_context,
        &kem_suite_id(v.config.0),
    );
    assert_eq!(secret, v.shared_secret);
}

#[test]
fn a_diffie_hellman_value_opens_the_message_of_the_rfc() {
    let v = vector();
    let value = dh(&v.sk_r, &v.input.kem_output);
    assert_eq!(
        open_from_dh(v.config, &v.input, &value, &v.pk_r, &v.info, &v.aad),
        Ok(v.pt.clone())
    );
    assert_eq!(
        open_from_dh(v.config, &v.input, &value, &v.info, &v.info, &v.aad),
        Err(CryptoError::HpkeDecryptionError)
    );
}

#[test]
fn the_derived_key_pair_is_the_one_of_the_rfc() {
    let v = vector();
    let mut provider = VaultCryptoProvider::new();
    let pair = provider
        .derive_hpke_keypair(v.config, &v.ikm_r, HpkeKeyPurpose::EncryptionKey)
        .unwrap();
    assert_eq!(pair.private, v.sk_r);
    assert_eq!(pair.public, v.pk_r);
}

#[test]
fn vault_and_raw_key_open_the_message_of_the_rfc() {
    let v = vector();
    let secret: [u8; 32] = v.sk_r.as_slice().try_into().unwrap();
    let vault = Arc::new(RecordingVault::new(secret));
    let provider = VaultCryptoProvider::with_vault(vault.clone(), 0, 0);
    let by_raw_key = provider.hpke_open(v.config, &v.input, &v.sk_r, &v.info, &v.aad);
    assert_eq!(by_raw_key, Ok(v.pt.clone()));
    assert_eq!(vault.record(), Vec::<String>::new());
    let by_vault = provider.hpke_open(v.config, &v.input, b"vault:enc/9", &v.info, &v.aad);
    assert_eq!(by_vault, by_raw_key);
    assert_eq!(vault.record(), ["dh enc 9", "pubkey enc 9"]);
    let directly = provider.vault_hpke_open(v.config, &v.input, "enc", 9, &v.info, &v.aad);
    assert_eq!(directly, by_raw_key);
}

#[test]
fn vault_and_raw_key_turn_down_the_same_ciphertexts() {
    let v = vector();
    let secret: [u8; 32] = v.sk_r.as_slice().try_into().unwrap();
    let provider = VaultCryptoProvider::with_vault(Arc::new(RecordingVault::new(secret)), 0, 0);
    let failed = Err(CryptoError::HpkeDecryptionError);
    for sk_r in [v.sk_r.as_slice(), b"vault:init/0"] {
        assert_eq!(provider.hpke_open(v.config, &v.input, sk_r, &v.info, b"other"), failed);
        assert_eq!(provider.hpke_open(v.config, &v.input, sk_r, b"other", &v.aad), failed);
        let mut input = v.input.clone();
        input.ciphertext[0] ^= 1;
        assert_eq!(provider.hpke_open(v.config, &input, sk_r, &v.info, &v.aad), failed);
        input.ciphertext.truncate(15);
        assert_eq!(provider.hpke_open(v.config, &input, sk_r, &v.info, &v.aad), failed);
        let mut input = v.input.clone();
        input.kem_output[5] ^= 1;
        assert_eq!(provider.hpke_open(v.config, &input, sk_r, &v.info, &v.aad), failed);
        let export = x25519_config(HpkeAeadType::Export);
        assert_eq!(provider.hpke_open(export, &v.input, sk_r, &v.info, &v.aad), failed);
    }
}

#[test]
fn raw_keys_of_small_order_are_turned_down() {
    let v = vector();
    let provider = VaultCryptoProvider::new();
    let mut input = v.input.clone();
    input.kem_output = vec![0; 32];
    assert_eq!(
        provider.hpke_open(v.config, &input, &v.sk_r, &v.info, &v.aad),
        Err(CryptoError::HpkeDecryptionError)
    );
    assert_eq!(
        provider.hpke_seal(v.config, &[0; 32], &v.info, &v.aad, &v.pt),
        Err(CryptoError::CryptoLibraryError)
    );
}

#[test]
fn without_a_vault_a_path_is_a_raw_key() {
    let v = vector();
    let provider = VaultCryptoProvider::new();
    let input = MlsCiphertext {
        kem_output: v.input.kem_output.clone().into(),
        ciphertext: v.input.ciphertext.clone().into(),
    };
    for sk_r in [&b"vault:init/3"[..], b"vault:enc/0", b"vault:foo/1"] {
        let config = MlsConfig(MlsKem::DhKem25519, MlsKdf::HkdfSha256, MlsAead::AesGcm128);
        assert_eq!(
            provider.hpke_open(v.config, &v.input, sk_r, &v.info, &v.aad),
            Err(CryptoError::HpkeDecryptionError)
        );
        assert_eq!(
            RustCrypto::default().hpke_open(config, &input, sk_r, &v.info, &v.aad),
            Err(MlsError::HpkeDecryptionError)
        );
    }
    // Asked for a key in the vault outright, there is none.
    assert_eq!(
        provider.vault_hpke_open(v.config, &v.input, "init", 0, &v.info, &v.aad),
        Err(CryptoError::CryptoLibraryError)
    );
}

#[test]
fn without_a_vault_a_raw_key_that_reads_as_a_path_opens() {
    let v = vector();
    let sk_r = *b"vault:init/000000000000000000003";
    let pk_r = PublicKey::from(&StaticSecret::from(sk_r)).as_bytes().to_vec();
    let provider = VaultCryptoProvider::new();
    let c = provider.hpke_seal(v.config, &pk_r, b"info", b"aad", b"m").unwrap();
    assert_eq!(
        provider.hpke_open(v.config, &c, &sk_r, b"info", b"aad").unwrap(),
        b"m"
    );
    // With a vault it is the path that it reads as.
    let vault = Arc::new(RecordingVault::new([7; 32]));
    let provider = VaultCryptoProvider::with_vault(vault.clone(), 0, 0);
    assert_eq!(
        provider.hpke_open(v.config, &c, &sk_r, b"info", b"aad"),
        Err(CryptoError::HpkeDecryptionError)
    );
    assert_eq!(vault.record(), ["dh init 3", "pubkey init 3"]);
}

#[test]
fn other_key_types_do_not_reach_the_vault() {
    let v = vector();
    let vault = Arc::new(RecordingVault::new([7; 32]));
    let provider = VaultCryptoProvider::with_vault(vault.clone(), 0, 0);
    for sk_r in [
        &b"vault:foo/1"[..],
        b"vault:/1",
        b"vault:initx/1",
        b"vault:ini/1",
        b"vault:Init/1",
        b"vault:en/1",
    ] {
        assert_eq!(VaultCryptoProvider::marked_vault_key(sk_r), None);
        assert_eq!(
            provider.hpke_open(v.config, &v.input, sk_r, &v.info, &v.aad),
            Err(CryptoError::HpkeDecryptionError)
        );
    }
    assert_eq!(vault.record(), Vec::<String>::new());
    assert_eq!(
        VaultCryptoProvider::marked_vault_key(b"vault:init/1"),
        Some(("init", 1))
    );
    assert_eq!(
        VaultCryptoProvider::marked_vault_key(b"vault:enc/+02"),
        Some(("enc", 2))
    );
}

#[test]
fn errors_of_the_vault_come_before_the_mechanism() {
    let v = vector();
    let x_wing = HpkeConfig(HpkeKemType::XWingKemDraft6, v.config.1, v.config.2);
    let mut vault = RecordingVault::new([7; 32]);
    vault.dh_error = Some(CryptoError::InsufficientRandomness);
    let provider = VaultCryptoProvider::with_vault(Arc::new(vault), 0, 0);
    let failed = Err(CryptoError::InsufficientRandomness);
    assert_eq!(
        provider.hpke_open(x_wing, &v.input, b"vault:enc/1", &v.info, &v.aad),
        failed
    );
    assert_eq!(
        provider.vault_hpke_open(x_wing, &v.input, "enc", 1, &v.info, &v.aad),
        failed
    );
    let mut vault = RecordingVault::new([7; 32]);
    vault.pubkey_error = Some(CryptoError::TooMuchData);
    let provider = VaultCryptoProvider::with_vault(Arc::new(vault), 0, 0);
    let failed = Err(CryptoError::TooMuchData);
    assert_eq!(
        provider.hpke_open(x_wing, &v.input, b"vault:enc/1", &v.info, &v.aad),
        failed
    );
    assert_eq!(
        open_from_replies(x_wing, &v.input, Ok(vec![1]), failed.clone(), &v.info, &v.aad),
        failed
    );
}

#[test]
fn bytes_that_are_nearly_a_path_are_a_raw_key() {
    let v = vector();
    let vault = Arc::new(RecordingVault::new([7; 32]));
    let provider = VaultCryptoProvider::with_vault(vault.clone(), 0, 0);
    assert_eq!(
        provider.hpke_open(v.config, &v.input, b"vault:init/x", &v.info, &v.aad),
        Err(CryptoError::HpkeDecryptionError)
    );
    assert_eq!(vault.record(), Vec::<String>::new());
}

#[test]
fn errors_of_the_vault_are_handed_on() {
    let v = vector();
    let mut vault = RecordingVault::new([7; 32]);
    vault.dh_error = Some(CryptoError::InsufficientRandomness);
    vault.pubkey_error = Some(CryptoError::TooMuchData);
    let vault = Arc::new(vault);
    let provider = VaultCryptoProvider::with_vault(vault.clone(), 0, 0);
    // The first error counts, and no more is asked.
    assert_eq!(
        provider.hpke_open(v.config, &v.input, b"vault:init/3", &v.info, &v.aad),
        Err(CryptoError::InsufficientRandomness)
    );
    assert_eq!(vault.record(), ["dh init 3"]);

    let mut vault = RecordingVault::new([7; 32]);
    vault.pubkey_error = Some(CryptoError::TooMuchData);
    let vault = Arc::new(vault);
    let provider = VaultCryptoProvider::with_vault(vault.clone(), 0, 0);
    assert_eq!(
        provider.hpke_open(v.config, &v.input, b"vault:init/3", &v.info, &v.aad),
        Err(CryptoError::TooMuchData)
    );
    assert_eq!(vault.record(), ["dh init 3", "pubkey init 3"]);

    // An encapsulated key that the vault turns down.
    let provider = VaultCryptoProvider::with_vault(Arc::new(RecordingVault::new([7; 32])), 0, 0);
    let mut input = v.input.clone();
    input.kem_output.push(0);
    assert_eq!(
        provider.hpke_open(v.config, &input, b"vault:init/3", &v.info, &v.aad),
        Err(CryptoError::InvalidPublicKey)
    );
}

#[test]
fn replies_decide_what_is_opened() {
    let v = vector();
    let value = dh(&v.sk_r, &v.input.kem_output);
    let first = CryptoError::InvalidLength;
    let second = CryptoError::SigningError;
    assert_eq!(
        open_from_replies(
            v.config,
            &v.input,
            Ok(value.clone()),
            Ok(v.pk_r.clone()),
            &v.info,
            &v.aad
        ),
        Ok(v.pt.clone())
    );
    assert_eq!(
        open_from_replies(v.config, &v.input, Err(first), Err(second), &v.info, &v.aad),
        Err(first)
    );
    assert_eq!(
        open_from_replies(v.config, &v.input, Ok(value), Err(second), &v.info, &v.aad),
        Err(second)
    );
    assert_eq!(
        open_from_replies(v.config, &v.input, Err(first), Ok(v.pk_r), &v.info, &v.aad),
        Err(first)
    );
}

#[test]
fn sealed_messages_open_through_the_vault() {
    for aead in [
        HpkeAeadType::AesGcm128,
        HpkeAeadType::AesGcm256,
        HpkeAeadType::ChaCha20Poly1305,
    ] {
        for kdf in [
            HpkeKdfType::HkdfSha256,
            HpkeKdfType::HkdfSha384,
            HpkeKdfType::HkdfSha512,
        ] {
            let config = HpkeConfig(HpkeKemType::DhKem25519, kdf, aead);
            let vault = Arc::new(RecordingVault::new([42; 32]));
            let mut bob = VaultCryptoProvider::with_vault(vault, 5, 6);
            let pair = bob
                .derive_hpke_keypair(config, &[], HpkeKeyPurpose::InitKey)
                .unwrap();
            assert_eq!(pair.private, b"vault:init/5");
            let alice = VaultCryptoProvider::new();
            for pt in [&b""[..], b"hello from Alice", &[9; 1000]] {
                let c = alice
                    .hpke_seal(config, &pair.public, b"info", b"aad", pt)
                    .unwrap();
                assert_eq!(c.kem_output.len(), 32);
                assert_eq!(c.ciphertext.len(), pt.len() + 16);
                assert_eq!(
                    bob.hpke_open(config, &c, &pair.private, b"info", b"aad").unwrap(),
                    pt
                );
                // Nobody without a vault opens it by the path.
                assert_eq!(
                    alice.hpke_open(config, &c, &pair.private, b"info", b"aad"),
                    Err(CryptoError::HpkeDecryptionError)
                );
            }
        }
    }
}

#[test]
fn sealed_messages_open_with_raw_keys() {
    for kem in [HpkeKemType::DhKem25519, HpkeKemType::DhKemP256] {
        let config = HpkeConfig(kem, HpkeKdfType::HkdfSha256, HpkeAeadType::AesGcm128);
        let mut provider =
            VaultCryptoProvider::with_vault(Arc::new(RecordingVault::new([1; 32])), 0, 0);
        let pair = provider
            .derive_hpke_keypair(config, &[3; 32], HpkeKeyPurpose::PathSecret)
            .unwrap();
        let c = provider
            .hpke_seal(config, &pair.public, b"info", b"aad", b"message")
            .unwrap();
        assert_eq!(
            provider.hpke_open(config, &c, &pair.private, b"info", b"aad").unwrap(),
            b"message"
        );
    }
}

#[test]
fn two_seals_of_one_message_differ() {
    let v = vector();
    let provider = VaultCryptoProvider::new();
    let a = provider.hpke_seal(v.config, &v.pk_r, b"", b"", b"m").unwrap();
    let b = provider.hpke_seal(v.config, &v.pk_r, b"", b"", b"m").unwrap();
    assert_ne!(a, b);
}

#[test]
fn public_keys_without_a_known_private_key_are_sealed_to() {
    let v = vector();
    let provider = VaultCryptoProvider::new();
    let mut pk_r = [0; 32];
    for (first, taken) in [(0, false), (1, false), (2, true), (3, true), (9, true)] {
        pk_r[0] = first;
        let sealed = provider.hpke_seal(v.config, &pk_r, b"", b"", b"m");
        assert_eq!(sealed.is_ok(), taken);
        let exported = provider.hpke_setup_sender_and_export(v.config, &pk_r, b"", b"", 32);
        if taken {
            assert!(exported.is_ok());
        } else {
            assert_eq!(exported, Err(CryptoError::SenderSetupError));
        }
    }
}

#[test]
fn sealing_fails_without_curve_or_encryption() {
    let v = vector();
    let provider = VaultCryptoProvider::new();
    let failed = Err(CryptoError::CryptoLibraryError);
    for kem in [HpkeKemType::DhKemP384, HpkeKemType::DhKemP521, HpkeKemType::DhKem448] {
        let config = HpkeConfig(kem, v.config.1, v.config.2);
        assert_eq!(provider.hpke_seal(config, &v.pk_r, b"", b"", b"m"), failed);
        assert_eq!(
            provider.hpke_open(config, &v.input, &v.sk_r, b"", b""),
            Err(CryptoError::HpkeDecryptionError)
        );
    }
    let export = x25519_config(HpkeAeadType::Export);
    assert_eq!(provider.hpke_seal(export, &v.pk_r, b"", b"", b"m"), failed);
    assert_eq!(provider.hpke_seal(v.config, &v.pk_r[1..], b"", b"", b"m"), failed);
}

#[test]
fn sender_and_receiver_export_the_same_secret() {
    let provider = VaultCryptoProvider::new();
    let v = vector();
    for kem in [HpkeKemType::DhKem25519, HpkeKemType::DhKemP256] {
        for (kdf, max) in [
            (HpkeKdfType::HkdfSha256, 255 * 32),
            (HpkeKdfType::HkdfSha384, 255 * 48),
            (HpkeKdfType::HkdfSha512, 255 * 64),
        ] {
            let config = HpkeConfig(kem, kdf, HpkeAeadType::Export);
            let pair = VaultCryptoProvider::new()
                .derive_hpke_keypair(config, &[3; 32], HpkeKeyPurpose::ExternalPub)
                .unwrap();
            for len in [0, 32, max] {
                let (enc, secret) = provider
                    .hpke_setup_sender_and_export(config, &pair.public, &v.info, b"context", len)
                    .unwrap();
                assert_eq!(secret.len(), len);
                let received = provider.hpke_setup_receiver_and_export(
                    config,
                    &enc,
                    &pair.private,
                    &v.info,
                    b"context",
                    len,
                );
                assert_eq!(received, Ok(secret));
            }
            let (enc, _) = provider
                .hpke_setup_sender_and_export(config, &pair.public, &v.info, b"", 1)
                .unwrap();
            assert_eq!(
                provider.hpke_setup_sender_and_export(config, &pair.public, &v.info, b"", max + 1),
                Err(CryptoError::ExporterError)
            );
            assert_eq!(
                provider.hpke_setup_receiver_and_export(
                    config,
                    &enc,
                    &pair.private,
                    &v.info,
                    b"",
                    max + 1
                ),
                Err(CryptoError::ExporterError)
            );
        }
    }
}

#[test]
fn the_exported_secret_is_the_one_of_the_rfc() {
    let v = vector();
    let provider = VaultCryptoProvider::new();
    assert_eq!(
        provider.hpke_setup_receiver_and_export(
            v.config,
            &v.input.kem_output,
            &v.sk_r,
            &v.info,
            b"",
            32
        ),
        Ok(hex("3853fe2b4035195a573ffc53856e77058e15d9ea064de3e59f4961d0095250ee"))
    );
}

#[test]
fn contexts_are_not_set_up_for_wrong_keys() {
    let v = vector();
    let provider = VaultCryptoProvider::with_vault(Arc::new(RecordingVault::new([1; 32])), 0, 0);
    let sender = Err(CryptoError::SenderSetupError);
    let receiver = Err(CryptoError::ReceiverSetupError);
    assert_eq!(
        provider.hpke_setup_sender_and_export(v.config, &v.pk_r[1..], b"", b"", 32),
        sender
    );
    let p384 = HpkeConfig(HpkeKemType::DhKemP384, v.config.1, v.config.2);
    assert_eq!(
        provider.hpke_setup_sender_and_export(p384, &v.pk_r, b"", b"", 32),
        sender
    );
    assert_eq!(
        provider.hpke_setup_receiver_and_export(p384, &v.pk_r, &v.sk_r, b"", b"", 32),
        receiver
    );
    assert_eq!(
        provider.hpke_setup_receiver_and_export(v.config, &v.pk_r[1..], &v.sk_r, b"", b"", 32),
        receiver
    );
    assert_eq!(
        provider.hpke_setup_receiver_and_export(v.config, &[0; 32], &v.sk_r, b"", b"", 32),
        receiver
    );
    // The vault has no part in exporting: its paths are keys of the wrong length.
    assert_eq!(
        provider.hpke_setup_receiver_and_export(v.config, &v.pk_r, b"vault:init/0", b"", b"", 32),
        receiver
    );
}

/// A vault that derives a key of its own for every path from a seed.
struct SeededVault {
    seed: [u8; 32],
}

impl SeededVault {
    fn secret_at(&self, key_type: &str, index: u32) -> StaticSecret {
        let mut hasher = Sha256::new();
        hasher.update(self.seed);
        hasher.update(key_type.as_bytes());
        hasher.update(index.to_be_bytes());
        let derived: [u8; 32] = hasher.finalize().into();
        StaticSecret::from(derived)
    }
}

impl HpkeVaultBackend for SeededVault {
    fn pubkey_at(&self, key_type: &str, index: u32) -> Result<Vec<u8>, CryptoError> {
        Ok(PublicKey::from(&self.secret_at(key_type, index)).as_bytes().to_vec())
    }

    fn dh(&self, key_type: &str, index: u32, peer_public: &[u8]) -> Result<Vec<u8>, CryptoError> {
        let peer: [u8; 32] = peer_public.try_into().map_err(|_| CryptoError::CryptoLibraryError)?;
        let shared = self.secret_at(key_type, index).diffie_hellman(&PublicKey::from(peer));
        Ok(shared.as_bytes().to_vec())
    }
}

#[test]
fn every_member_opens_what_was_sealed_to_its_own_keys() {
    let config = x25519_config(HpkeAeadType::ChaCha20Poly1305);
    let mut members = Vec::new();
    for seed in [10, 20, 30] {
        let vault = Arc::new(SeededVault { seed: [seed; 32] });
        members.push(VaultCryptoProvider::with_vault(vault, 0, 0));
    }
    let mut pairs = Vec::new();
    for member in members.iter_mut() {
        for purpose in [
            HpkeKeyPurpose::InitKey,
            HpkeKeyPurpose::EncryptionKey,
            HpkeKeyPurpose::InitKey,
        ] {
            pairs.push(member.derive_hpke_keypair(config, &[], purpose).unwrap());
        }
    }
    for (i, to) in pairs.iter().enumerate() {
        let c = members[0]
            .hpke_seal(config, &to.public, b"info", b"aad", b"welcome")
            .unwrap();
        for (j, from) in pairs.iter().enumerate() {
            let opened = members[j / 3].hpke_open(config, &c, &from.private, b"info", b"aad");
            if i == j {
                assert_eq!(opened.unwrap(), b"welcome");
            } else {
                assert_eq!(opened, Err(CryptoError::HpkeDecryptionError));
            }
        }
    }
}

#[test]
fn both_parts_of_the_path_choose_the_key() {
    let config = x25519_config(HpkeAeadType::ChaCha20Poly1305);
    let vault = Arc::new(SeededVault { seed: [42; 32] });
    let pk_r = vault.pubkey_at("init", 0).unwrap();
    let provider = VaultCryptoProvider::with_vault(vault, 0, 0);
    let c = provider.hpke_seal(config, &pk_r, b"info", b"aad", b"m").unwrap();
    for _ in 0..2 {
        assert_eq!(
            provider.hpke_open(config, &c, b"vault:init/0", b"info", b"aad").unwrap(),
            b"m"
        );
        for sk_r in [&b"vault:init/1"[..], b"vault:enc/0"] {
            assert_eq!(
                provider.hpke_open(config, &c, sk_r, b"info", b"aad"),
                Err(CryptoError::HpkeDecryptionError)
            );
        }
    }
}
