//! The primitives of `RustCrypto`: key derivation, hashing, authenticated encryption,
//! signatures and random bytes, with what is taken for granted of each.
//!
//! An error of the provider is handed on as its place among the errors.

use crate::backend::{chacha20_covers, TAG_LEN};
use crate::rust_crypto::SEALED_LEN;
use crate::types::{
    by_ordinal, fails_with, viewed, AeadType, Ciphersuite, CryptoError, HashType, RandError, SignatureScheme,
};
use openmls_rust_crypto::{RandError as MlsRandError, RustCrypto};
use openmls_traits::crypto::OpenMlsCrypto;
use openmls_traits::random::OpenMlsRand;
use openmls_traits::types::{
    AeadType as MlsAead, Ciphersuite as MlsSuite, HashType as MlsHash, SignatureScheme as MlsScheme,
};
use vstd::prelude::*;

verus! {

/// Whether `RustCrypto` has all the algorithms of a ciphersuite.
pub open spec fn is_supported(suite: Ciphersuite) -> bool {
    suite == Ciphersuite::MLS_128_DHKEMX25519_AES128GCM_SHA256_Ed25519 || suite
        == Ciphersuite::MLS_128_DHKEMX25519_CHACHA20POLY1305_SHA256_Ed25519 || suite
        == Ciphersuite::MLS_128_DHKEMP256_AES128GCM_SHA256_P256
}

/// `RustCrypto::supports`, which turns down every ciphersuite but three.
#[verifier::external_body]
pub(crate) fn supports(inner: &RustCrypto, suite: Ciphersuite) -> (r: Result<(), u8>)
    ensures
        r is Ok <==> is_supported(suite),
        r is Ok || fails_with(r, CryptoError::UnsupportedCiphersuite),
{
    let suite = match suite {
        Ciphersuite::MLS_128_DHKEMX25519_AES128GCM_SHA256_Ed25519 => MlsSuite::MLS_128_DHKEMX25519_AES128GCM_SHA256_Ed25519,
        Ciphersuite::MLS_128_DHKEMP256_AES128GCM_SHA256_P256 => MlsSuite::MLS_128_DHKEMP256_AES128GCM_SHA256_P256,
        Ciphersuite::MLS_128_DHKEMX25519_CHACHA20POLY1305_SHA256_Ed25519 => MlsSuite::MLS_128_DHKEMX25519_CHACHA20POLY1305_SHA256_Ed25519,
        Ciphersuite::MLS_256_DHKEMX448_AES256GCM_SHA512_Ed448 => MlsSuite::MLS_256_DHKEMX448_AES256GCM_SHA512_Ed448,
        Ciphersuite::MLS_256_DHKEMP521_AES256GCM_SHA512_P521 => MlsSuite::MLS_256_DHKEMP521_AES256GCM_SHA512_P521,
        Ciphersuite::MLS_256_DHKEMX448_CHACHA20POLY1305_SHA512_Ed448 => MlsSuite::MLS_256_DHKEMX448_CHACHA20POLY1305_SHA512_Ed448,
        Ciphersuite::MLS_256_DHKEMP384_AES256GCM_SHA384_P384 => MlsSuite::MLS_256_DHKEMP384_AES256GCM_SHA384_P384,
        Ciphersuite::MLS_256_XWING_CHACHA20POLY1305_SHA256_Ed25519 => MlsSuite::MLS_256_XWING_CHACHA20POLY1305_SHA256_Ed25519,
    };
    inner.supports(suite).map_err(|e| e as u8)
}

/// `RustCrypto::supported_ciphersuites`, with each ciphersuite given by the code under
/// which it is registered.
#[verifier::external_body]
pub(crate) fn supported_ciphersuites(inner: &RustCrypto) -> (codes: Vec<u16>)
    ensures
        codes@ == seq![0x0001u16, 0x0003, 0x0002],
{
    inner.supported_ciphersuites().into_iter().map(u16::from).collect()
}

/// HKDF-Extract of RFC 5869: the pseudorandom key for a salt and input keying material.
pub uninterp spec fn extracted_prk(hash_type: HashType, salt: Seq<u8>, ikm: Seq<u8>) -> Seq<u8>;

/// `RustCrypto::hkdf_extract`. It never fails; the key is a function of the arguments
/// alone and as long as a digest.
#[verifier::external_body]
pub(crate) fn hkdf_extract(inner: &RustCrypto, hash_type: HashType, salt: &[u8], ikm: &[u8]) -> (r:
    Result<Vec<u8>, u8>)
    ensures
        r is Ok,
        r matches Ok(prk) ==> prk@ == extracted_prk(hash_type, salt@, ikm@),
        r matches Ok(prk) ==> prk@.len() == hash_type.size(),
{
    let hash_type = match hash_type {
        HashType::Sha2_256 => MlsHash::Sha2_256,
        HashType::Sha2_384 => MlsHash::Sha2_384,
        HashType::Sha2_512 => MlsHash::Sha2_512,
    };
    inner.hkdf_extract(hash_type, salt, ikm).map(|b| b.as_slice().to_vec()).map_err(|e| e as u8)
}

/// HMAC of RFC 2104: the authentication code of a message under a key.
pub uninterp spec fn hmac_code(hash_type: HashType, key: Seq<u8>, message: Seq<u8>) -> Seq<u8>;

/// `RustCrypto::hmac`. It takes keys of any length and never fails; the code is a
/// function of the arguments alone and as long as a digest.
#[verifier::external_body]
pub(crate) fn hmac(inner: &RustCrypto, hash_type: HashType, key: &[u8], message: &[u8]) -> (r: Result<
    Vec<u8>,
    u8,
>)
    ensures
        r is Ok,
        r matches Ok(code) ==> code@ == hmac_code(hash_type, key@, message@),
        r matches Ok(code) ==> code@.len() == hash_type.size(),
{
    let hash_type = match hash_type {
        HashType::Sha2_256 => MlsHash::Sha2_256,
        HashType::Sha2_384 => MlsHash::Sha2_384,
        HashType::Sha2_512 => MlsHash::Sha2_512,
    };
    inner.hmac(hash_type, key, message).map(|b| b.as_slice().to_vec()).map_err(|e| e as u8)
}

/// HKDF-Expand of RFC 5869: the output keying material of a given length for a
/// pseudorandom key and info.
pub uninterp spec fn expanded_okm(hash_type: HashType, prk: Seq<u8>, info: Seq<u8>, len: nat) -> Seq<u8>;

/// Whether a pseudorandom key is long enough, and the output short enough: a digest at
/// least, and 255 digests at most.
pub open spec fn can_expand(hash_type: HashType, prk: Seq<u8>, len: nat) -> bool {
    hash_type.size() <= prk.len() && len <= 255 * hash_type.size()
}

/// `RustCrypto::hkdf_expand`. It fails if the key is shorter than a digest or the
/// output longer than 255 digests, always with the same error; the output is a function
/// of the arguments alone. It panics if the output would not fit an address space.
#[verifier::external_body]
pub(crate) fn hkdf_expand(
    inner: &RustCrypto,
    hash_type: HashType,
    prk: &[u8],
    info: &[u8],
    okm_len: usize,
) -> (r: Result<Vec<u8>, u8>)
    requires
        hash_type.size() <= prk@.len() ==> okm_len <= isize::MAX,
    ensures
        r is Ok <==> can_expand(hash_type, prk@, okm_len as nat),
        r is Ok || fails_with(r, CryptoError::HkdfOutputLengthInvalid),
        r matches Ok(okm) ==> okm@ == expanded_okm(hash_type, prk@, info@, okm_len as nat),
        r matches Ok(okm) ==> okm@.len() == okm_len,
{
    let hash_type = match hash_type {
        HashType::Sha2_256 => MlsHash::Sha2_256,
        HashType::Sha2_384 => MlsHash::Sha2_384,
        HashType::Sha2_512 => MlsHash::Sha2_512,
    };
    inner.hkdf_expand(hash_type, prk, info, okm_len).map(|b| b.as_slice().to_vec()).map_err(|e| e as u8)
}

/// SHA-2 of FIPS 180-4: the digest of some data.
pub uninterp spec fn digest(hash_type: HashType, data: Seq<u8>) -> Seq<u8>;

/// `RustCrypto::hash`. It never fails; the digest is a function of the arguments alone.
#[verifier::external_body]
pub(crate) fn hash(inner: &RustCrypto, hash_type: HashType, data: &[u8]) -> (r: Result<Vec<u8>, u8>)
    ensures
        r is Ok,
        r matches Ok(d) ==> d@ == digest(hash_type, data@),
        r matches Ok(d) ==> d@.len() == hash_type.size(),
{
    let hash_type = match hash_type {
        HashType::Sha2_256 => MlsHash::Sha2_256,
        HashType::Sha2_384 => MlsHash::Sha2_384,
        HashType::Sha2_512 => MlsHash::Sha2_512,
    };
    inner.hash(hash_type, data).map_err(|e| e as u8)
}

/// The length of a nonce, in bytes.
pub const NONCE_LEN: usize = 12;

/// Whether an encryption can be run with a nonce on a message of `n` bytes. With a key
/// of the wrong length it gets as far as neither.
pub open spec fn can_run(alg: AeadType, key: Seq<u8>, nonce: Seq<u8>, n: int) -> bool {
    key.len() == alg.key_size() ==> nonce.len() == NONCE_LEN && (alg == AeadType::ChaCha20Poly1305
        ==> chacha20_covers(n))
}

/// What `RustCrypto::aead_encrypt` returns: the ciphertext with the tag behind it.
pub uninterp spec fn aead_sealed(
    alg: AeadType,
    key: Seq<u8>,
    data: Seq<u8>,
    nonce: Seq<u8>,
    aad: Seq<u8>,
) -> Result<Seq<u8>, CryptoError>;

/// What `RustCrypto::aead_decrypt` returns.
pub uninterp spec fn aead_opened(
    alg: AeadType,
    key: Seq<u8>,
    ct_tag: Seq<u8>,
    nonce: Seq<u8>,
    aad: Seq<u8>,
) -> Result<Seq<u8>, CryptoError>;

/// Whether `RustCrypto::aead_decrypt` returns some data.
pub open spec fn opens_to(
    alg: AeadType,
    key: Seq<u8>,
    ct_tag: Seq<u8>,
    nonce: Seq<u8>,
    aad: Seq<u8>,
    data: Seq<u8>,
) -> bool {
    aead_opened(alg, key, ct_tag, nonce, aad) == Ok::<Seq<u8>, CryptoError>(data)
}

/// `RustCrypto::aead_encrypt`. What it returns is a function of the arguments alone.
/// Every failure is one of the library: a key of the wrong length, or a message or
/// associated data longer than the encryption takes. What it encrypted, `aead_decrypt`
/// decrypts. It panics on a nonce of the wrong length, and where the key stream runs
/// out.
#[verifier::external_body]
pub(crate) fn aead_encrypt(
    inner: &RustCrypto,
    alg: AeadType,
    key: &[u8],
    data: &[u8],
    nonce: &[u8],
    aad: &[u8],
) -> (r: Result<Vec<u8>, u8>)
    requires
        can_run(alg, key@, nonce@, data@.len() as int),
    ensures
        viewed(r) == by_ordinal(aead_sealed(alg, key@, data@, nonce@, aad@)),
        r is Ok || fails_with(r, CryptoError::CryptoLibraryError),
        key@.len() != alg.key_size() ==> r is Err,
        key@.len() == alg.key_size() && data@.len() <= SEALED_LEN && aad@.len() <= SEALED_LEN
            ==> r is Ok,
        r matches Ok(ct) ==> ct@.len() == data@.len() + TAG_LEN,
        r matches Ok(ct) ==> opens_to(alg, key@, ct@, nonce@, aad@, data@),
{
    let alg = match alg {
        AeadType::Aes128Gcm => MlsAead::Aes128Gcm,
        AeadType::Aes256Gcm => MlsAead::Aes256Gcm,
        AeadType::ChaCha20Poly1305 => MlsAead::ChaCha20Poly1305,
    };
    inner.aead_encrypt(alg, key, data, nonce, aad).map_err(|e| e as u8)
}

/// `RustCrypto::aead_decrypt`. What it returns is a function of the arguments alone. A
/// key of the wrong length is an error of the library; every other failure is a failed
/// decryption, and one comes of every ciphertext shorter than a tag. It panics on a
/// nonce of the wrong length, and where the key stream runs out.
#[verifier::external_body]
pub(crate) fn aead_decrypt(
    inner: &RustCrypto,
    alg: AeadType,
    key: &[u8],
    ct_tag: &[u8],
    nonce: &[u8],
    aad: &[u8],
) -> (r: Result<Vec<u8>, u8>)
    requires
        can_run(alg, key@, nonce@, ct_tag@.len() - TAG_LEN),
    ensures
        viewed(r) == by_ordinal(aead_opened(alg, key@, ct_tag@, nonce@, aad@)),
        key@.len() != alg.key_size() ==> fails_with(r, CryptoError::CryptoLibraryError),
        key@.len() == alg.key_size() ==> r is Ok || fails_with(r, CryptoError::AeadDecryptionError),
        r matches Ok(data) ==> data@.len() + TAG_LEN == ct_tag@.len(),
{
    let alg = match alg {
        AeadType::Aes128Gcm => MlsAead::Aes128Gcm,
        AeadType::Aes256Gcm => MlsAead::Aes256Gcm,
        AeadType::ChaCha20Poly1305 => MlsAead::ChaCha20Poly1305,
    };
    inner.aead_decrypt(alg, key, ct_tag, nonce, aad).map_err(|e| e as u8)
}

/// Whether `RustCrypto` has a signature scheme.
pub open spec fn can_sign(scheme: SignatureScheme) -> bool {
    scheme == SignatureScheme::ECDSA_SECP256R1_SHA256 || scheme == SignatureScheme::ED25519
}

/// The length of a private signature key of a scheme that `RustCrypto` has, in bytes.
pub const SIGNATURE_KEY_LEN: usize = 32;

/// The length of a public signature key of a scheme that `RustCrypto` has, in bytes: a
/// compressed point of Ed25519, or an uncompressed one of P-256.
pub open spec fn public_key_len(scheme: SignatureScheme) -> nat {
    if scheme == SignatureScheme::ED25519 {
        32
    } else {
        65
    }
}

/// The length of an Ed25519 signature, in bytes.
pub const ED25519_SIGNATURE_LEN: usize = 64;

/// The public key of a private signature key, as `verifying_key` of the signing key of
/// `ed25519_dalek` or `p256` gives it.
pub uninterp spec fn signature_public_key(scheme: SignatureScheme, sk: Seq<u8>) -> Seq<u8>;

/// `RustCrypto::signature_key_gen`. The private key is random and comes before the
/// public one, which is its public key; their lengths are those of the scheme. It fails for want of randomness
/// if the generator's lock is poisoned, and otherwise just on the schemes that are not
/// there.
#[verifier::external_body]
pub(crate) fn signature_key_gen(inner: &RustCrypto, scheme: SignatureScheme) -> (r: Result<
    (Vec<u8>, Vec<u8>),
    u8,
>)
    ensures
        !can_sign(scheme) ==> fails_with(r, CryptoError::UnsupportedSignatureScheme),
        can_sign(scheme) ==> r is Ok || fails_with(r, CryptoError::InsufficientRandomness),
        r matches Ok(pair) ==> pair.0@.len() == SIGNATURE_KEY_LEN,
        r matches Ok(pair) ==> pair.1@.len() == public_key_len(scheme),
        r matches Ok(pair) ==> pair.1@ == signature_public_key(scheme, pair.0@),
{
    let scheme = match scheme {
        SignatureScheme::ECDSA_SECP256R1_SHA256 => MlsScheme::ECDSA_SECP256R1_SHA256,
        SignatureScheme::ECDSA_SECP384R1_SHA384 => MlsScheme::ECDSA_SECP384R1_SHA384,
        SignatureScheme::ECDSA_SECP521R1_SHA512 => MlsScheme::ECDSA_SECP521R1_SHA512,
        SignatureScheme::ED25519 => MlsScheme::ED25519,
        SignatureScheme::ED448 => MlsScheme::ED448,
    };
    inner.signature_key_gen(scheme).map_err(|e| e as u8)
}

/// What `RustCrypto::verify_signature` returns.
pub uninterp spec fn signature_check(
    scheme: SignatureScheme,
    data: Seq<u8>,
    pk: Seq<u8>,
    signature: Seq<u8>,
) -> Result<(), CryptoError>;

/// `RustCrypto::verify_signature`. What it returns is a function of the arguments
/// alone. It turns down the schemes that are not there; otherwise a failure is one of
/// the library, and always so on an Ed25519 key or signature of the wrong length, or an
/// invalid signature.
#[verifier::external_body]
pub(crate) fn verify_signature(
    inner: &RustCrypto,
    scheme: SignatureScheme,
    data: &[u8],
    pk: &[u8],
    signature: &[u8],
) -> (r: Result<(), u8>)
    ensures
        viewed(r) == by_ordinal(signature_check(scheme, data@, pk@, signature@)),
        !can_sign(scheme) ==> fails_with(r, CryptoError::UnsupportedSignatureScheme),
        can_sign(scheme) ==> r is Ok || fails_with(r, CryptoError::CryptoLibraryError) || fails_with(r, CryptoError::InvalidSignature),
        scheme == SignatureScheme::ED25519 && (pk@.len() != public_key_len(scheme)
            || signature@.len() != ED25519_SIGNATURE_LEN) ==> fails_with(r, CryptoError::CryptoLibraryError),
{
    let scheme = match scheme {
        SignatureScheme::ECDSA_SECP256R1_SHA256 => MlsScheme::ECDSA_SECP256R1_SHA256,
        SignatureScheme::ECDSA_SECP384R1_SHA384 => MlsScheme::ECDSA_SECP384R1_SHA384,
        SignatureScheme::ECDSA_SECP521R1_SHA512 => MlsScheme::ECDSA_SECP521R1_SHA512,
        SignatureScheme::ED25519 => MlsScheme::ED25519,
        SignatureScheme::ED448 => MlsScheme::ED448,
    };
    inner.verify_signature(scheme, data, pk, signature).map_err(|e| e as u8)
}

/// What `RustCrypto::sign` returns: a signature of Ed25519, or one of ECDSA with the
/// deterministic nonce of RFC 6979.
pub uninterp spec fn signature_of(
    scheme: SignatureScheme,
    data: Seq<u8>,
    key: Seq<u8>,
) -> Result<Seq<u8>, CryptoError>;

/// The first half of an Ed25519 signature that no strict check takes: the neutral point.
/// It comes of a nonce that is zero.
pub open spec fn neutral_point() -> Seq<u8> {
    Seq::new(32, |i: int| if i == 0 { 1u8 } else { 0u8 })
}

/// Whether `RustCrypto::verify_signature` takes a signature under the public key of a
/// private key, as it does with all that the private key signed, but for Ed25519
/// signatures that start with the neutral point.
pub open spec fn verifies(
    scheme: SignatureScheme,
    data: Seq<u8>,
    key: Seq<u8>,
    signature: Seq<u8>,
) -> bool {
    scheme == SignatureScheme::ED25519 && signature.take(32) == neutral_point() || signature_check(
        scheme,
        data,
        signature_public_key(scheme, key),
        signature,
    ) == Ok::<(), CryptoError>(())
}

/// `RustCrypto::sign`. What it returns is a function of the arguments alone. It turns
/// down the schemes that are not there; every other failure is one of the library, and
/// with Ed25519 comes just of keys of the wrong length. What it signs,
/// `verify_signature` takes under the public key of the private key; left out are
/// Ed25519 signatures with the neutral point, which that turns down. It panics on a P-256 key of the
/// wrong length.
#[verifier::external_body]
pub(crate) fn sign(inner: &RustCrypto, scheme: SignatureScheme, data: &[u8], key: &[u8]) -> (r:
    Result<Vec<u8>, u8>)
    requires
        scheme == SignatureScheme::ECDSA_SECP256R1_SHA256 ==> key@.len() == SIGNATURE_KEY_LEN,
    ensures
        viewed(r) == by_ordinal(signature_of(scheme, data@, key@)),
        !can_sign(scheme) ==> fails_with(r, CryptoError::UnsupportedSignatureScheme),
        can_sign(scheme) ==> r is Ok || fails_with(r, CryptoError::CryptoLibraryError),
        scheme == SignatureScheme::ED25519 ==> (r is Ok <==> key@.len() == SIGNATURE_KEY_LEN),
        scheme == SignatureScheme::ED25519 ==> (r matches Ok(signature) ==> signature@.len()
            == ED25519_SIGNATURE_LEN),
        r matches Ok(signature) ==> verifies(scheme, data@, key@, signature@),
{
    let scheme = match scheme {
        SignatureScheme::ECDSA_SECP256R1_SHA256 => MlsScheme::ECDSA_SECP256R1_SHA256,
        SignatureScheme::ECDSA_SECP384R1_SHA384 => MlsScheme::ECDSA_SECP384R1_SHA384,
        SignatureScheme::ECDSA_SECP521R1_SHA512 => MlsScheme::ECDSA_SECP521R1_SHA512,
        SignatureScheme::ED25519 => MlsScheme::ED25519,
        SignatureScheme::ED448 => MlsScheme::ED448,
    };
    inner.sign(scheme, data, key).map_err(|e| e as u8)
}

/// `RustCrypto::random_array`. The bytes are random; it fails only if the generator's
/// lock is poisoned.
#[verifier::external_body]
pub(crate) fn random_array<const N: usize>(inner: &RustCrypto) -> (r: Result<[u8; N], RandError>)
    ensures
        r matches Err(error) ==> error == RandError::LockPoisoned,
{
    inner.random_array().map_err(|e| match e {
        MlsRandError::LockPoisoned => RandError::LockPoisoned,
        MlsRandError::NotEnoughRandomness => RandError::NotEnoughRandomness,
    })
}

/// `RustCrypto::random_vec`. The bytes are random, and as many as were asked for; it
/// fails only if the generator's lock is poisoned. It panics if the bytes would not fit
/// an address space.
#[verifier::external_body]
pub(crate) fn random_vec(inner: &RustCrypto, len: usize) -> (r: Result<Vec<u8>, RandError>)
    requires
        len <= isize::MAX,
    ensures
        r matches Err(error) ==> error == RandError::LockPoisoned,
        r matches Ok(bytes) ==> bytes@.len() == len,
{
    inner.random_vec(len).map_err(|e| match e {
        MlsRandError::LockPoisoned => RandError::LockPoisoned,
        MlsRandError::NotEnoughRandomness => RandError::NotEnoughRandomness,
    })
}

} // verus!
