//! The operations that the vault has no part in.

use vault_hpke::delegation::ciphersuites;
use vault_hpke::types::{AeadType, Ciphersuite, CryptoError, HashType, SignatureScheme};
use vault_hpke::vault_crypto::VaultCryptoProvider;

fn hex(text: &str) -> Vec<u8> {
    (0..text.len() / 2)
        .map(|i| u8::from_str_radix(&text[2 * i..2 * i + 2], 16).unwrap())
        .collect()
}

const SUITES: [Ciphersuite; 8] = [
    Ciphersuite::MLS_128_DHKEMX25519_AES128GCM_SHA256_Ed25519,
    Ciphersuite::MLS_128_DHKEMP256_AES128GCM_SHA256_P256,
    Ciphersuite::MLS_128_DHKEMX25519_CHACHA20POLY1305_SHA256_Ed25519,
    Ciphersuite::MLS_256_DHKEMX448_AES256GCM_SHA512_Ed448,
    Ciphersuite::MLS_256_DHKEMP521_AES256GCM_SHA512_P521,
    Ciphersuite::MLS_256_DHKEMX448_CHACHA20POLY1305_SHA512_Ed448,
    Ciphersuite::MLS_256_DHKEMP384_AES256GCM_SHA384_P384,
    Ciphersuite::MLS_256_XWING_CHACHA20POLY1305_SHA256_Ed25519,
];

#[test]
fn three_ciphersuites_are_supported() {
    let provider = VaultCryptoProvider::new();
    let listed = provider.supported_ciphersuites();
    assert_eq!(
        listed,
        [
            Ciphersuite::MLS_128_DHKEMX25519_AES128GCM_SHA256_Ed25519,
            Ciphersuite::MLS_128_DHKEMX25519_CHACHA20POLY1305_SHA256_Ed25519,
            Ciphersuite::MLS_128_DHKEMP256_AES128GCM_SHA256_P256,
        ]
    );
    for suite in SUITES {
        let expected = if listed.contains(&suite) {
            Ok(())
        } else {
            Err(CryptoError::UnsupportedCiphersuite)
        };
        assert_eq!(provider.supports(suite), expected);
    }
}

#[test]
fn ciphersuites_have_their_registered_codes() {
    assert_eq!(ciphersuites(&[1, 2, 3, 4, 5, 6, 7, 0x4D]), SUITES);
    assert_eq!(ciphersuites(&[]), []);
    assert_eq!(Ciphersuite::from_code(0), None);
    assert_eq!(Ciphersuite::from_code(8), None);
    assert_eq!(Ciphersuite::from_code(0xFFFF), None);
}

#[test]
fn digests_are_those_of_the_standard() {
    let provider = VaultCryptoProvider::new();
    assert_eq!(
        provider.hash(HashType::Sha2_256, b"abc"),
        Ok(hex("ba7816bf8f01cfea414140de5dae2223b00361a396177a9cb410ff61f20015ad"))
    );
    assert_eq!(
        provider.hash(HashType::Sha2_384, b"abc"),
        Ok(hex(
            "cb00753f45a35e8bb5a03d699ac65007272c32ab0eded1631a8b605a43ff5bed8086072ba1e7cc2358baeca134c825a7"
        ))
    );
    assert_eq!(
        provider.hash(HashType::Sha2_512, b"abc"),
        Ok(hex(
            "ddaf35a193617abacc417349ae20413112e6fa4e89a97ea20a9eeee64b55d39a2192992a274fc1a836ba3c23a3feebbd454d4423643ce80e2a9ac94fa54ca49f"
        ))
    );
}

#[test]
fn authentication_codes_are_those_of_the_standard() {
    // RFC 4231, section 4.3.
    let provider = VaultCryptoProvider::new();
    let data = b"what do ya want for nothing?";
    assert_eq!(
        provider.hmac(HashType::Sha2_256, b"Jefe", data),
        Ok(hex("5bdcc146bf60754e6a042426089575c75a003f089d2739839dec58b964ec3843"))
    );
    assert_eq!(provider.hmac(HashType::Sha2_384, b"Jefe", data).unwrap().len(), 48);
    assert_eq!(provider.hmac(HashType::Sha2_512, b"Jefe", data).unwrap().len(), 64);
}

#[test]
fn keys_are_derived_as_in_the_standard() {
    // RFC 5869, appendix A.1.
    let provider = VaultCryptoProvider::new();
    let prk = provider
        .hkdf_extract(HashType::Sha2_256, &hex("000102030405060708090a0b0c"), &[0x0b; 22])
        .unwrap();
    assert_eq!(
        prk,
        hex("077709362c2e32df0ddc3f0dc47bba6390b6c73bb50f9c3122ec844ad7c2b3e5")
    );
    let okm = provider
        .hkdf_expand(HashType::Sha2_256, &prk, &hex("f0f1f2f3f4f5f6f7f8f9"), 42)
        .unwrap();
    assert_eq!(
        okm,
        hex("3cb25f25faacd57a90434f64d0362f2a2d2d0a90cf1a5a4c5db02d56ecc4c5bf34007208d5b887185865")
    );
    assert_eq!(provider.hkdf_extract(HashType::Sha2_384, b"s", b"k").unwrap().len(), 48);
    assert_eq!(provider.hkdf_extract(HashType::Sha2_512, b"s", b"k").unwrap().len(), 64);
}

#[test]
fn expanding_has_its_limits() {
    let provider = VaultCryptoProvider::new();
    let failed = Err(CryptoError::HkdfOutputLengthInvalid);
    for (hash_type, size) in [
        (HashType::Sha2_256, 32),
        (HashType::Sha2_384, 48),
        (HashType::Sha2_512, 64),
    ] {
        let prk = vec![1; size];
        assert_eq!(provider.hkdf_expand(hash_type, &prk, b"", 0), Ok(Vec::new()));
        assert_eq!(
            provider.hkdf_expand(hash_type, &prk, b"", 255 * size).unwrap().len(),
            255 * size
        );
        assert_eq!(provider.hkdf_expand(hash_type, &prk, b"", 255 * size + 1), failed);
        assert_eq!(provider.hkdf_expand(hash_type, &prk[1..], b"", 16), failed);
        assert_eq!(provider.hkdf_expand(hash_type, &[], b"", usize::MAX), failed);
    }
}

#[test]
fn what_is_encrypted_is_decrypted() {
    let provider = VaultCryptoProvider::new();
    let nonce = [4; 12];
    for (alg, key_len) in [
        (AeadType::Aes128Gcm, 16),
        (AeadType::Aes256Gcm, 32),
        (AeadType::ChaCha20Poly1305, 32),
    ] {
        let key = vec![7; key_len];
        let ct = provider.aead_encrypt(alg, &key, b"data", &nonce, b"aad").unwrap();
        assert_eq!(ct.len(), 20);
        assert_ne!(&ct[..4], b"data");
        assert_eq!(
            provider.aead_decrypt(alg, &key, &ct, &nonce, b"aad").unwrap(),
            b"data"
        );
        let failed = Err(CryptoError::AeadDecryptionError);
        assert_eq!(provider.aead_decrypt(alg, &key, &ct, &nonce, b"other"), failed);
        assert_eq!(provider.aead_decrypt(alg, &key, &ct, &[5; 12], b"aad"), failed);
        assert_eq!(provider.aead_decrypt(alg, &key, &ct[1..], &nonce, b"aad"), failed);
        assert_eq!(provider.aead_decrypt(alg, &key, &[], &nonce, b"aad"), failed);
        // With a key of the wrong length the nonce is not looked at.
        let failed = Err(CryptoError::CryptoLibraryError);
        assert_eq!(provider.aead_encrypt(alg, &key[1..], b"data", &[], b"aad"), failed);
        assert_eq!(provider.aead_decrypt(alg, &key[1..], &ct, &[], b"aad"), failed);
    }
}

#[test]
fn an_empty_message_is_encrypted_as_in_the_standard() {
    // What is left is the tag, here for a key and a nonce of zeros.
    let provider = VaultCryptoProvider::new();
    assert_eq!(
        provider.aead_encrypt(AeadType::Aes128Gcm, &[0; 16], b"", &[0; 12], b""),
        Ok(hex("58e2fccefa7e3061367f1d57a4e7455a"))
    );
}

#[test]
fn signatures_verify() {
    let provider = VaultCryptoProvider::new();
    for (scheme, pk_len) in [
        (SignatureScheme::ED25519, 32),
        (SignatureScheme::ECDSA_SECP256R1_SHA256, 65),
    ] {
        let (sk, pk) = provider.signature_key_gen(scheme).unwrap();
        assert_eq!(sk.len(), 32);
        assert_eq!(pk.len(), pk_len);
        let signature = provider.sign(scheme, b"data", &sk).unwrap();
        assert_eq!(provider.sign(scheme, b"data", &sk).unwrap(), signature);
        assert_eq!(provider.verify_signature(scheme, b"data", &pk, &signature), Ok(()));
        assert_eq!(
            provider.verify_signature(scheme, b"other", &pk, &signature),
            Err(CryptoError::InvalidSignature)
        );
        let (other, other_pk) = provider.signature_key_gen(scheme).unwrap();
        assert_ne!(sk, other);
        assert_eq!(
            provider.verify_signature(scheme, b"data", &other_pk, &signature),
            Err(CryptoError::InvalidSignature)
        );
    }
}

#[test]
fn signatures_are_those_of_the_standard() {
    // RFC 8032, section 7.1, test 1.
    let provider = VaultCryptoProvider::new();
    let sk = hex("9d61b19deffd5a60ba844af492ec2cc44449c5697b326919703bac031cae7f60");
    let pk = hex("d75a980182b10ab7d54bfed3c964073a0ee172f3daa62325af021a68f707511a");
    let signature = hex(
        "e5564300c360ac729086e2cc806e828a84877f1eb8e5d974d873e065224901555fb8821590a33bacc61e39701cf9b46bd25bf5f0595bbe24655141438e7a100b",
    );
    assert_eq!(
        provider.sign(SignatureScheme::ED25519, b"", &sk),
        Ok(signature.clone())
    );
    assert_eq!(
        provider.verify_signature(SignatureScheme::ED25519, b"", &pk, &signature),
        Ok(())
    );
    let failed = Err(CryptoError::CryptoLibraryError);
    assert_eq!(
        provider.verify_signature(SignatureScheme::ED25519, b"", &pk[1..], &signature),
        failed
    );
    assert_eq!(
        provider.verify_signature(SignatureScheme::ED25519, b"", &pk, &signature[1..]),
        failed
    );
    assert_eq!(
        provider.sign(SignatureScheme::ED25519, b"", &sk[1..]),
        Err(CryptoError::CryptoLibraryError)
    );
    // Zero is no private key of P-256, and these bytes are no public key.
    assert_eq!(
        provider.sign(SignatureScheme::ECDSA_SECP256R1_SHA256, b"", &[0; 32]),
        Err(CryptoError::CryptoLibraryError)
    );
    assert_eq!(
        provider.verify_signature(SignatureScheme::ECDSA_SECP256R1_SHA256, b"", &pk, &signature),
        failed
    );
}

#[test]
fn other_schemes_are_not_there() {
    let provider = VaultCryptoProvider::new();
    for scheme in [
        SignatureScheme::ECDSA_SECP384R1_SHA384,
        SignatureScheme::ECDSA_SECP521R1_SHA512,
        SignatureScheme::ED448,
    ] {
        assert_eq!(
            provider.signature_key_gen(scheme),
            Err(CryptoError::UnsupportedSignatureScheme)
        );
        assert_eq!(
            provider.sign(scheme, b"", &[1; 32]),
            Err(CryptoError::UnsupportedSignatureScheme)
        );
        assert_eq!(
            provider.verify_signature(scheme, b"", &[1; 32], &[2; 64]),
            Err(CryptoError::UnsupportedSignatureScheme)
        );
    }
}

#[test]
fn random_bytes_are_as_many_as_asked_for() {
    let provider = VaultCryptoProvider::new();
    assert_eq!(provider.random_vec(0), Ok(Vec::new()));
    let a = provider.random_vec(32).unwrap();
    let b = provider.random_vec(32).unwrap();
    assert_eq!(a.len(), 32);
    assert_ne!(a, b);
    let a: [u8; 32] = provider.random_array().unwrap();
    let b: [u8; 32] = provider.random_array().unwrap();
    assert_ne!(a, b);
}
