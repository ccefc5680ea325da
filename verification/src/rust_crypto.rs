//! The HPKE operations of `RustCrypto`, the provider that stands behind the vault, with
//! what is taken for granted of each.
//!
//! An error of the provider is handed on as its place among the errors.

use crate::backend::TAG_LEN;
use crate::key_schedule::{can_process, opened_from_dh};
use crate::types::{
    by_ordinal, fails_with, viewed, CryptoError, HpkeAeadType, HpkeCiphertext, HpkeConfig, HpkeKdfType,
    HpkeKemType, HpkeKeyPair,
};
use openmls_rust_crypto::RustCrypto;
use openmls_traits::crypto::OpenMlsCrypto;
use openmls_traits::types::{
    HpkeAeadType as MlsAead, HpkeCiphertext as MlsCiphertext, HpkeConfig as MlsConfig,
    HpkeKdfType as MlsKdf, HpkeKemType as MlsKem,
};
use vstd::prelude::*;

verus! {

/// The provider of `openmls_rust_crypto`: a random number generator behind a lock. But
/// for random bytes, all that its operations compute from is in their arguments.
#[verifier::external_type_specification]
#[verifier::external_body]
pub struct ExRustCrypto(openmls_rust_crypto::RustCrypto);

/// `RustCrypto::default`: a provider with a freshly seeded generator, of which nothing
/// is claimed.
#[verifier::external_body]
pub(crate) fn new_rust_crypto() -> RustCrypto {
    RustCrypto::default()
}

/// The length of an X25519 key, private or public, and of a Diffie-Hellman value, in
/// bytes.
pub const X25519_LEN: usize = 32;

/// X25519 of RFC 7748 for a private and a public key, as `HpkeRustCrypto::dh` computes
/// it before it looks at the value.
pub uninterp spec fn x25519(sk: Seq<u8>, pk: Seq<u8>) -> Seq<u8>;

/// The X25519 public key of a private key, as `HpkeRustCrypto::secret_to_public`
/// computes it.
pub uninterp spec fn x25519_public(sk: Seq<u8>) -> Seq<u8>;

/// The Diffie-Hellman value that is turned down: no key had a part in it.
pub open spec fn all_zeros() -> Seq<u8> {
    Seq::new(X25519_LEN as nat, |i: int| 0u8)
}

/// Whether `RustCrypto` has the curve of an encapsulation mechanism.
pub open spec fn has_curve(kem: HpkeKemType) -> bool {
    kem == HpkeKemType::DhKem25519 || kem == HpkeKemType::DhKemP256
}

/// What `RustCrypto::hpke_open` returns.
pub uninterp spec fn rust_crypto_open(
    config: HpkeConfig,
    enc: Seq<u8>,
    ct: Seq<u8>,
    sk: Seq<u8>,
    info: Seq<u8>,
    aad: Seq<u8>,
) -> Result<Seq<u8>, CryptoError>;

/// `RustCrypto::hpke_open`. What it returns is a function of the arguments alone, and
/// every failure is a failed decryption. A message is as long as its ciphertext without
/// the tag. With X25519 and keys of the right length it opens from the Diffie-Hellman
/// value of the private key with the encapsulated key, unless that value is all zeros;
/// without a curve, or without an encryption, it opens nothing. It panics on X-Wing,
/// and where the key stream runs out.
#[verifier::external_body]
pub(crate) fn hpke_open(
    inner: &RustCrypto,
    config: HpkeConfig,
    kem_output: &[u8],
    ciphertext: &[u8],
    sk_r: &[u8],
    info: &[u8],
    aad: &[u8],
) -> (r: Result<Vec<u8>, u8>)
    requires
        config.0 != HpkeKemType::XWingKemDraft6,
        can_process(config.2, ciphertext@.len() - TAG_LEN),
    ensures
        viewed(r) == by_ordinal(
            rust_crypto_open(config, kem_output@, ciphertext@, sk_r@, info@, aad@),
        ),
        r is Ok || fails_with(r, CryptoError::HpkeDecryptionError),
        r matches Ok(pt) ==> pt@.len() + TAG_LEN == ciphertext@.len(),
        !has_curve(config.0) || config.2 == HpkeAeadType::Export ==> r is Err,
        config.0 == HpkeKemType::DhKem25519 && (sk_r@.len() != X25519_LEN || kem_output@.len()
            != X25519_LEN || x25519(sk_r@, kem_output@) == all_zeros()) ==> r is Err,
        config.0 == HpkeKemType::DhKem25519 && sk_r@.len() == X25519_LEN && kem_output@.len()
            == X25519_LEN && x25519(sk_r@, kem_output@) != all_zeros() ==> viewed(r) == by_ordinal(
            opened_from_dh(
                config,
                kem_output@,
                ciphertext@,
                x25519(sk_r@, kem_output@),
                x25519_public(sk_r@),
                info@,
                aad@,
            ),
        ),
{
    let kem = match config.0 {
        HpkeKemType::DhKemP256 => MlsKem::DhKemP256, HpkeKemType::DhKemP384 => MlsKem::DhKemP384,
        HpkeKemType::DhKemP521 => MlsKem::DhKemP521, HpkeKemType::DhKem25519 => MlsKem::DhKem25519,
        HpkeKemType::DhKem448 => MlsKem::DhKem448, HpkeKemType::XWingKemDraft6 => MlsKem::XWingKemDraft6,
    };
    let kdf = match config.1 {
        HpkeKdfType::HkdfSha256 => MlsKdf::HkdfSha256, HpkeKdfType::HkdfSha384 => MlsKdf::HkdfSha384,
        HpkeKdfType::HkdfSha512 => MlsKdf::HkdfSha512,
    };
    let aead = match config.2 {
        HpkeAeadType::AesGcm128 => MlsAead::AesGcm128, HpkeAeadType::AesGcm256 => MlsAead::AesGcm256,
        HpkeAeadType::ChaCha20Poly1305 => MlsAead::ChaCha20Poly1305, HpkeAeadType::Export => MlsAead::Export,
    };
    let input = MlsCiphertext { kem_output: kem_output.into(), ciphertext: ciphertext.into() };
    inner.hpke_open(MlsConfig(kem, kdf, aead), &input, sk_r, info, aad).map_err(|e| e as u8)
}

/// What `RustCrypto::derive_hpke_keypair` returns: the private and the public key.
pub uninterp spec fn rust_crypto_keypair(
    config: HpkeConfig,
    ikm: Seq<u8>,
) -> Result<(Seq<u8>, Seq<u8>), CryptoError>;

/// `RustCrypto::derive_hpke_keypair`. What it returns is a function of the arguments
/// alone, and every failure is one of the library. X25519 always has a key pair;
/// without a curve there is none. It panics on X-Wing.
#[verifier::external_body]
pub(crate) fn derive_hpke_keypair(
    inner: &RustCrypto,
    config: HpkeConfig,
    ikm: &[u8],
) -> (r: Result<HpkeKeyPair, u8>)
    requires
        config.0 != HpkeKemType::XWingKemDraft6,
    ensures
        viewed(r) == by_ordinal(rust_crypto_keypair(config, ikm@)),
        r is Ok || fails_with(r, CryptoError::CryptoLibraryError),
        !has_curve(config.0) ==> r is Err,
        config.0 == HpkeKemType::DhKem25519 ==> r is Ok,
        config.0 == HpkeKemType::DhKem25519 ==> (r matches Ok(pair) ==> pair.private@.len()
            == X25519_LEN && pair.public@ == x25519_public(pair.private@)),
{
    let kem = match config.0 {
        HpkeKemType::DhKemP256 => MlsKem::DhKemP256, HpkeKemType::DhKemP384 => MlsKem::DhKemP384,
        HpkeKemType::DhKemP521 => MlsKem::DhKemP521, HpkeKemType::DhKem25519 => MlsKem::DhKem25519,
        HpkeKemType::DhKem448 => MlsKem::DhKem448, HpkeKemType::XWingKemDraft6 => MlsKem::XWingKemDraft6,
    };
    let kdf = match config.1 {
        HpkeKdfType::HkdfSha256 => MlsKdf::HkdfSha256, HpkeKdfType::HkdfSha384 => MlsKdf::HkdfSha384,
        HpkeKdfType::HkdfSha512 => MlsKdf::HkdfSha512,
    };
    let aead = match config.2 {
        HpkeAeadType::AesGcm128 => MlsAead::AesGcm128, HpkeAeadType::AesGcm256 => MlsAead::AesGcm256,
        HpkeAeadType::ChaCha20Poly1305 => MlsAead::ChaCha20Poly1305, HpkeAeadType::Export => MlsAead::Export,
    };
    inner.derive_hpke_keypair(MlsConfig(kem, kdf, aead), ikm).map_err(|e| e as u8)
        .map(|pair| HpkeKeyPair { private: pair.private.to_vec(), public: pair.public })
}

/// Whether a private and a public key are a pair that `derive_hpke_keypair` gives.
pub open spec fn derived_pair(config: HpkeConfig, sk: Seq<u8>, pk: Seq<u8>) -> bool {
    exists|ikm: Seq<u8>| #[trigger]
        rust_crypto_keypair(config, ikm) == Ok::<(Seq<u8>, Seq<u8>), CryptoError>((sk, pk))
}

/// Whether a private and a public key belong together: a pair that was derived, or any
/// X25519 private key with its public key.
pub open spec fn is_pair(config: HpkeConfig, sk: Seq<u8>, pk: Seq<u8>) -> bool {
    derived_pair(config, sk, pk) || config.0 == HpkeKemType::DhKem25519 && sk.len() == X25519_LEN
        && x25519_public(sk) == pk
}

/// Whether a ciphertext, given as encapsulated key and encrypted message, holds a
/// message for the holders of a public key's private key. Whoever has the raw private
/// key opens it; with X25519, so does whoever has the Diffie-Hellman value of the
/// private key with the encapsulated key.
pub open spec fn sealed_to(
    config: HpkeConfig,
    pk_r: Seq<u8>,
    info: Seq<u8>,
    aad: Seq<u8>,
    pt: Seq<u8>,
    c: (Seq<u8>, Seq<u8>),
) -> bool {
    &&& forall|sk: Seq<u8>| #[trigger]
        is_pair(config, sk, pk_r) ==> rust_crypto_open(config, c.0, c.1, sk, info, aad)
            == Ok::<Seq<u8>, CryptoError>(pt)
    &&& config.0 == HpkeKemType::DhKem25519 ==> c.0.len() == X25519_LEN
    &&& config.0 == HpkeKemType::DhKem25519 ==> forall|sk: Seq<u8>|
        sk.len() == X25519_LEN && #[trigger] x25519_public(sk) == pk_r ==> x25519(sk, c.0)
            != all_zeros() && opened_from_dh(config, c.0, c.1, x25519(sk, c.0), pk_r, info, aad)
            == Ok::<Seq<u8>, CryptoError>(pt)
}

/// The longest message, and the longest associated data, that is sealed without fail:
/// every encryption takes as many bytes as this.
pub const SEALED_LEN: u32 = 0xFFFF_FFFF;

/// Whether a public key is the one of an X25519 private key.
pub open spec fn has_private_key(pk: Seq<u8>) -> bool {
    exists|sk: Seq<u8>| sk.len() == X25519_LEN && #[trigger] x25519_public(sk) == pk
}

/// Whether a public key is of small order: every X25519 private key has a
/// Diffie-Hellman value of zeros with it.
pub open spec fn is_small_order(pk: Seq<u8>) -> bool {
    forall|sk: Seq<u8>| sk.len() == X25519_LEN ==> #[trigger] x25519(sk, pk) == all_zeros()
}

/// Whether a public key is one of a pair that `derive_hpke_keypair` gives.
pub open spec fn is_derived(config: HpkeConfig, pk: Seq<u8>) -> bool {
    exists|sk: Seq<u8>| #[trigger] derived_pair(config, sk, pk)
}

/// Whether a fresh key pair can be drawn: all of 32 random bytes have a pair that is
/// derived from them. On P-256 that is a search, which gives up after 256 tries.
pub open spec fn draws_keys(config: HpkeConfig) -> bool {
    forall|ikm: Seq<u8>| ikm.len() == 32 ==> #[trigger] rust_crypto_keypair(config, ikm) is Ok
}

/// Whether a public key is a point of the curve: some private key sets up a receiving
/// context with it.
pub open spec fn is_point(config: HpkeConfig, pk: Seq<u8>) -> bool {
    exists|sk: Seq<u8>| #[trigger]
        rust_crypto_export(config, pk, sk, Seq::empty(), Seq::empty(), 0) is Ok
}

/// `RustCrypto::hpke_seal`. The encapsulated key is of a fresh, random key pair, so two
/// calls differ. What was sealed to a public key, whoever holds its private key opens:
/// with the raw key, if `derive_hpke_keypair` gave it or it is an X25519 key, and with
/// an X25519 key by its Diffie-Hellman value with the encapsulated key, which is then
/// not all zeros. Every failure is one of the library; without a curve or without an
/// encryption it always fails. Up to the lengths that every encryption takes, it fails
/// with X25519 just on public keys of the wrong length and those of small order: on
/// these every private key gives zeros, on others none does. The public key of a private
/// key is never of small order. With P-256 it fails on public keys that are no points,
/// as the public half of a derived pair always is, and on others just if the fresh key
/// pair, which is derived from 32 random bytes, cannot be drawn. It panics on X-Wing,
/// and where the key stream runs out.
#[verifier::external_body]
pub(crate) fn hpke_seal(
    inner: &RustCrypto,
    config: HpkeConfig,
    pk_r: &[u8],
    info: &[u8],
    aad: &[u8],
    ptxt: &[u8],
) -> (r: Result<HpkeCiphertext, u8>)
    requires
        config.0 != HpkeKemType::XWingKemDraft6,
        can_process(config.2, ptxt@.len() as int),
    ensures
        r is Ok || fails_with(r, CryptoError::CryptoLibraryError),
        !has_curve(config.0) || config.2 == HpkeAeadType::Export ==> r is Err,
        config.0 == HpkeKemType::DhKem25519 && (pk_r@.len() != X25519_LEN || is_small_order(pk_r@))
            ==> r is Err,
        config.0 == HpkeKemType::DhKem25519 && config.2 != HpkeAeadType::Export && (
        has_private_key(pk_r@) || pk_r@.len() == X25519_LEN && !is_small_order(pk_r@))
            && aad@.len() <= SEALED_LEN && ptxt@.len() <= SEALED_LEN ==> r is Ok,
        config.0 == HpkeKemType::DhKemP256 && !is_point(config, pk_r@) ==> r is Err,
        config.0 == HpkeKemType::DhKemP256 && config.2 != HpkeAeadType::Export && (is_derived(
            config,
            pk_r@,
        ) || is_point(config, pk_r@)) && draws_keys(config) && aad@.len() <= SEALED_LEN
            && ptxt@.len() <= SEALED_LEN ==> r is Ok,
        r matches Ok(c) ==> c.ciphertext@.len() == ptxt@.len() + TAG_LEN,
        r matches Ok(c) ==> sealed_to(config, pk_r@, info@, aad@, ptxt@, c@),
{
    let kem = match config.0 {
        HpkeKemType::DhKemP256 => MlsKem::DhKemP256, HpkeKemType::DhKemP384 => MlsKem::DhKemP384,
        HpkeKemType::DhKemP521 => MlsKem::DhKemP521, HpkeKemType::DhKem25519 => MlsKem::DhKem25519,
        HpkeKemType::DhKem448 => MlsKem::DhKem448, HpkeKemType::XWingKemDraft6 => MlsKem::XWingKemDraft6,
    };
    let kdf = match config.1 {
        HpkeKdfType::HkdfSha256 => MlsKdf::HkdfSha256, HpkeKdfType::HkdfSha384 => MlsKdf::HkdfSha384,
        HpkeKdfType::HkdfSha512 => MlsKdf::HkdfSha512,
    };
    let aead = match config.2 {
        HpkeAeadType::AesGcm128 => MlsAead::AesGcm128, HpkeAeadType::AesGcm256 => MlsAead::AesGcm256,
        HpkeAeadType::ChaCha20Poly1305 => MlsAead::ChaCha20Poly1305, HpkeAeadType::Export => MlsAead::Export,
    };
    inner.hpke_seal(MlsConfig(kem, kdf, aead), pk_r, info, aad, ptxt).map_err(|e| e as u8)
        .map(|c| HpkeCiphertext { kem_output: c.kem_output.into(), ciphertext: c.ciphertext.into() })
}

/// The longest secret that an HPKE context exports: 255 digests of its hash.
pub open spec fn export_max(kdf: HpkeKdfType) -> nat {
    255 * kdf.size()
}

/// What `RustCrypto::hpke_setup_receiver_and_export` returns.
pub uninterp spec fn rust_crypto_export(
    config: HpkeConfig,
    enc: Seq<u8>,
    sk: Seq<u8>,
    info: Seq<u8>,
    exporter_context: Seq<u8>,
    exporter_length: nat,
) -> Result<Seq<u8>, CryptoError>;

/// `RustCrypto::hpke_setup_receiver_and_export`. What it returns is a function of the
/// arguments alone. The setup fails without a curve, and with X25519 just on keys of
/// the wrong length or with a Diffie-Hellman value of zeros; after it, exporting fails
/// just on secrets that are too long. It panics on X-Wing. Which keys on P-256 it takes
/// is left unsaid.
#[verifier::external_body]
pub(crate) fn hpke_setup_receiver_and_export(
    inner: &RustCrypto,
    config: HpkeConfig,
    enc: &[u8],
    sk_r: &[u8],
    info: &[u8],
    exporter_context: &[u8],
    exporter_length: usize,
) -> (r: Result<Vec<u8>, u8>)
    requires
        config.0 != HpkeKemType::XWingKemDraft6,
    ensures
        viewed(r) == by_ordinal(
            rust_crypto_export(
                config,
                enc@,
                sk_r@,
                info@,
                exporter_context@,
                exporter_length as nat,
            ),
        ),
        r is Ok || fails_with(r, CryptoError::ReceiverSetupError) || fails_with(
            r,
            CryptoError::ExporterError,
        ),
        !has_curve(config.0) ==> fails_with(r, CryptoError::ReceiverSetupError),
        config.0 == HpkeKemType::DhKem25519 ==> (fails_with(r, CryptoError::ReceiverSetupError)
            <==> sk_r@.len() != X25519_LEN || enc@.len() != X25519_LEN || x25519(sk_r@, enc@)
            == all_zeros()),
        fails_with(r, CryptoError::ExporterError) ==> export_max(config.1) < exporter_length,
        r is Ok ==> exporter_length <= export_max(config.1),
        r matches Ok(secret) ==> secret@.len() == exporter_length,
{
    let kem = match config.0 {
        HpkeKemType::DhKemP256 => MlsKem::DhKemP256, HpkeKemType::DhKemP384 => MlsKem::DhKemP384,
        HpkeKemType::DhKemP521 => MlsKem::DhKemP521, HpkeKemType::DhKem25519 => MlsKem::DhKem25519,
        HpkeKemType::DhKem448 => MlsKem::DhKem448, HpkeKemType::XWingKemDraft6 => MlsKem::XWingKemDraft6,
    };
    let kdf = match config.1 {
        HpkeKdfType::HkdfSha256 => MlsKdf::HkdfSha256, HpkeKdfType::HkdfSha384 => MlsKdf::HkdfSha384,
        HpkeKdfType::HkdfSha512 => MlsKdf::HkdfSha512,
    };
    let aead = match config.2 {
        HpkeAeadType::AesGcm128 => MlsAead::AesGcm128, HpkeAeadType::AesGcm256 => MlsAead::AesGcm256,
        HpkeAeadType::ChaCha20Poly1305 => MlsAead::ChaCha20Poly1305, HpkeAeadType::Export => MlsAead::Export,
    };
    inner.hpke_setup_receiver_and_export(MlsConfig(kem, kdf, aead), enc, sk_r, info, exporter_context, exporter_length)
        .map(|s| s.to_vec()).map_err(|e| e as u8)
}

/// Whether an encapsulated key and a secret were exported to a public key: whoever has
/// the raw private key exports the same secret from the encapsulated key.
pub open spec fn exported_to(
    config: HpkeConfig,
    pk_r: Seq<u8>,
    info: Seq<u8>,
    exporter_context: Seq<u8>,
    exporter_length: nat,
    exported: (Seq<u8>, Seq<u8>),
) -> bool {
    forall|sk: Seq<u8>| #[trigger]
        is_pair(config, sk, pk_r) ==> rust_crypto_export(
            config,
            exported.0,
            sk,
            info,
            exporter_context,
            exporter_length,
        ) == Ok::<Seq<u8>, CryptoError>(exported.1)
}

/// `RustCrypto::hpke_setup_sender_and_export`. The encapsulated key is of a fresh,
/// random key pair, and comes before the secret; whoever has the raw private key
/// exports the same secret from it. The setup fails without a curve, and with X25519
/// just on public keys of the wrong length or of small order, which the public key of a
/// private key never is; with P-256 it fails on public keys that are no points, as the
/// public half of a derived pair always is, and on others just if the fresh key pair,
/// which is derived from 32 random bytes, cannot be drawn. After it, exporting fails
/// just on secrets that are too long. It panics on X-Wing.
#[verifier::external_body]
pub(crate) fn hpke_setup_sender_and_export(
    inner: &RustCrypto,
    config: HpkeConfig,
    pk_r: &[u8],
    info: &[u8],
    exporter_context: &[u8],
    exporter_length: usize,
) -> (r: Result<(Vec<u8>, Vec<u8>), u8>)
    requires
        config.0 != HpkeKemType::XWingKemDraft6,
    ensures
        r is Ok || fails_with(r, CryptoError::SenderSetupError) || fails_with(
            r,
            CryptoError::ExporterError,
        ),
        !has_curve(config.0) ==> fails_with(r, CryptoError::SenderSetupError),
        config.0 == HpkeKemType::DhKem25519 ==> (fails_with(r, CryptoError::SenderSetupError)
            <==> pk_r@.len() != X25519_LEN || is_small_order(pk_r@)),
        config.0 == HpkeKemType::DhKem25519 && has_private_key(pk_r@) ==> !fails_with(
            r,
            CryptoError::SenderSetupError,
        ),
        config.0 == HpkeKemType::DhKemP256 && !is_point(config, pk_r@) ==> fails_with(
            r,
            CryptoError::SenderSetupError,
        ),
        config.0 == HpkeKemType::DhKemP256 && (is_derived(config, pk_r@) || is_point(config, pk_r@))
            && draws_keys(config) ==> !fails_with(r, CryptoError::SenderSetupError),
        fails_with(r, CryptoError::ExporterError) ==> export_max(config.1) < exporter_length,
        r is Ok ==> exporter_length <= export_max(config.1),
        r matches Ok(pair) ==> pair.1@.len() == exporter_length,
        r matches Ok(pair) ==> exported_to(
            config,
            pk_r@,
            info@,
            exporter_context@,
            exporter_length as nat,
            (pair.0@, pair.1@),
        ),
{
    let kem = match config.0 {
        HpkeKemType::DhKemP256 => MlsKem::DhKemP256, HpkeKemType::DhKemP384 => MlsKem::DhKemP384,
        HpkeKemType::DhKemP521 => MlsKem::DhKemP521, HpkeKemType::DhKem25519 => MlsKem::DhKem25519,
        HpkeKemType::DhKem448 => MlsKem::DhKem448, HpkeKemType::XWingKemDraft6 => MlsKem::XWingKemDraft6,
    };
    let kdf = match config.1 {
        HpkeKdfType::HkdfSha256 => MlsKdf::HkdfSha256, HpkeKdfType::HkdfSha384 => MlsKdf::HkdfSha384,
        HpkeKdfType::HkdfSha512 => MlsKdf::HkdfSha512,
    };
    let aead = match config.2 {
        HpkeAeadType::AesGcm128 => MlsAead::AesGcm128, HpkeAeadType::AesGcm256 => MlsAead::AesGcm256,
        HpkeAeadType::ChaCha20Poly1305 => MlsAead::ChaCha20Poly1305, HpkeAeadType::Export => MlsAead::Export,
    };
    inner.hpke_setup_sender_and_export(MlsConfig(kem, kdf, aead), pk_r, info, exporter_context, exporter_length)
        .map(|(enc, s)| (enc, s.to_vec())).map_err(|e| e as u8)
}

} // verus!
