//! From a Diffie-Hellman value to an opened message: the receiver's half of HPKE in
//! base mode (RFC 9180) after the private key has done its part.

use crate::backend::{
    chacha20_covers, context_open, hkdf_sha256, hkdf_sha256_okm, key_schedule_open, TAG_LEN,
};
use crate::types::{
    viewed, CryptoError, HpkeAeadType, HpkeCiphertext, HpkeConfig, HpkeKdfType, HpkeKemType,
};
use crate::vault_path::push_all;
use hpke_rs::HpkeError;
use vstd::prelude::*;
use vstd::utf8::encode_utf8;

verus! {

/// The encapsulation mechanisms that a key schedule can be set up for.
#[derive(Clone, Copy, Debug, PartialEq, Eq, Structural)]
pub enum KemAlgorithm {
    DhKemP256,
    DhKemP384,
    DhKemP521,
    DhKem25519,
    DhKem448,
}

impl KemAlgorithm {
    /// The identifier under which the mechanism is registered for HPKE.
    pub open spec fn code(self) -> u16 {
        match self {
            KemAlgorithm::DhKemP256 => 0x0010,
            KemAlgorithm::DhKemP384 => 0x0011,
            KemAlgorithm::DhKemP521 => 0x0012,
            KemAlgorithm::DhKem25519 => 0x0020,
            KemAlgorithm::DhKem448 => 0x0021,
        }
    }

    /// [`Self::code`], computed.
    pub fn id(self) -> (id: u16)
        ensures
            id == self.code(),
    {
        match self {
            KemAlgorithm::DhKemP256 => 0x0010,
            KemAlgorithm::DhKemP384 => 0x0011,
            KemAlgorithm::DhKemP521 => 0x0012,
            KemAlgorithm::DhKem25519 => 0x0020,
            KemAlgorithm::DhKem448 => 0x0021,
        }
    }
}

/// The key derivation functions that a key schedule can be set up for.
#[derive(Clone, Copy, Debug, PartialEq, Eq, Structural)]
pub enum KdfAlgorithm {
    HkdfSha256,
    HkdfSha384,
    HkdfSha512,
}

impl KdfAlgorithm {
    /// The identifier under which the function is registered for HPKE.
    pub open spec fn code(self) -> u16 {
        match self {
            KdfAlgorithm::HkdfSha256 => 0x0001,
            KdfAlgorithm::HkdfSha384 => 0x0002,
            KdfAlgorithm::HkdfSha512 => 0x0003,
        }
    }

    /// [`Self::code`], computed.
    pub fn id(self) -> (id: u16)
        ensures
            id == self.code(),
    {
        match self {
            KdfAlgorithm::HkdfSha256 => 0x0001,
            KdfAlgorithm::HkdfSha384 => 0x0002,
            KdfAlgorithm::HkdfSha512 => 0x0003,
        }
    }
}

/// The encryptions that a key schedule can be set up for.
#[derive(Clone, Copy, Debug, PartialEq, Eq, Structural)]
pub enum AeadAlgorithm {
    Aes128Gcm,
    Aes256Gcm,
    ChaCha20Poly1305,
    HpkeExport,
}

impl AeadAlgorithm {
    /// The identifier under which the encryption is registered for HPKE.
    pub open spec fn code(self) -> u16 {
        match self {
            AeadAlgorithm::Aes128Gcm => 0x0001,
            AeadAlgorithm::Aes256Gcm => 0x0002,
            AeadAlgorithm::ChaCha20Poly1305 => 0x0003,
            AeadAlgorithm::HpkeExport => 0xFFFF,
        }
    }

    /// [`Self::code`], computed.
    pub fn id(self) -> (id: u16)
        ensures
            id == self.code(),
    {
        match self {
            AeadAlgorithm::Aes128Gcm => 0x0001,
            AeadAlgorithm::Aes256Gcm => 0x0002,
            AeadAlgorithm::ChaCha20Poly1305 => 0x0003,
            AeadAlgorithm::HpkeExport => 0xFFFF,
        }
    }
}

/// The length of the shared secret that the encapsulation gives, in bytes.
pub const SHARED_SECRET_LEN: u16 = 32;

/// A 16-bit number as two bytes, the higher one first: I2OSP(n, 2).
pub open spec fn be16(n: u16) -> Seq<u8> {
    seq![(n / 256) as u8, (n % 256) as u8]
}

/// The identifier of an encapsulation mechanism as a suite of its own:
/// `"KEM" || I2OSP(kem_id, 2)`.
pub open spec fn suite_id(kem: HpkeKemType) -> Seq<u8> {
    encode_utf8("KEM"@) + be16(kem.code())
}

/// The labeled input to HKDF-Extract: `"HPKE-v1" || suite_id || label || ikm`.
pub open spec fn labeled_ikm(suite: Seq<u8>, label: Seq<char>, ikm: Seq<u8>) -> Seq<u8> {
    encode_utf8("HPKE-v1"@) + suite + encode_utf8(label) + ikm
}

/// The labeled info of HKDF-Expand:
/// `I2OSP(len, 2) || "HPKE-v1" || suite_id || label || info`.
pub open spec fn labeled_info(len: u16, suite: Seq<u8>, label: Seq<char>, info: Seq<u8>) -> Seq<u8> {
    be16(len) + encode_utf8("HPKE-v1"@) + suite + encode_utf8(label) + info
}

/// ExtractAndExpand of RFC 9180, section 4.1, with HKDF-SHA256: the shared secret that
/// a Diffie-Hellman value gives in a context.
pub open spec fn shared_secret(dh: Seq<u8>, kem_context: Seq<u8>, suite: Seq<u8>) -> Seq<u8> {
    hkdf_sha256_okm(
        Seq::empty(),
        labeled_ikm(suite, "eae_prk"@, dh),
        labeled_info(SHARED_SECRET_LEN, suite, "shared_secret"@, kem_context),
        SHARED_SECRET_LEN as nat,
    )
}

/// ExtractAndExpand: turns a raw Diffie-Hellman value into the shared secret.
///
/// ```text
/// def ExtractAndExpand(dh, kem_context):
///   prk = LabeledExtract("", "eae_prk", dh, suite_id)
///   return LabeledExpand(prk, "shared_secret", kem_context, Nsecret, suite_id)
/// ```
pub fn extract_and_expand(dh: &[u8], kem_context: &[u8], suite_id: &[u8]) -> (secret: Vec<u8>)
    ensures
        secret@ == shared_secret(dh@, kem_context@, suite_id@),
        secret@.len() == SHARED_SECRET_LEN,
{
    let mut ikm: Vec<u8> = Vec::new();
    push_all(&mut ikm, "HPKE-v1".as_bytes());
    push_all(&mut ikm, suite_id);
    push_all(&mut ikm, "eae_prk".as_bytes());
    push_all(&mut ikm, dh);
    assert(ikm@ =~= labeled_ikm(suite_id@, "eae_prk"@, dh@));

    let mut info: Vec<u8> = Vec::new();
    info.push((SHARED_SECRET_LEN / 256) as u8);
    info.push((SHARED_SECRET_LEN % 256) as u8);
    push_all(&mut info, "HPKE-v1".as_bytes());
    push_all(&mut info, suite_id);
    push_all(&mut info, "shared_secret".as_bytes());
    push_all(&mut info, kem_context);
    assert(info@ =~= labeled_info(SHARED_SECRET_LEN, suite_id@, "shared_secret"@, kem_context@));

    let salt: [u8; 0] = [];
    assert(salt@ =~= Seq::empty());
    hkdf_sha256(&salt, &ikm, &info, SHARED_SECRET_LEN as usize)
}

/// The suite identifier of an encapsulation mechanism: `"KEM" || I2OSP(kem_id, 2)`.
pub fn kem_suite_id(kem: HpkeKemType) -> (id: [u8; 5])
    ensures
        id@ == suite_id(kem),
{
    let id: [u8; 5] = match kem {
        HpkeKemType::DhKem25519 => [0x4B, 0x45, 0x4D, 0x00, 0x20],
        HpkeKemType::DhKemP256 => [0x4B, 0x45, 0x4D, 0x00, 0x10],
        HpkeKemType::DhKemP384 => [0x4B, 0x45, 0x4D, 0x00, 0x11],
        HpkeKemType::DhKemP521 => [0x4B, 0x45, 0x4D, 0x00, 0x12],
        HpkeKemType::DhKem448 => [0x4B, 0x45, 0x4D, 0x00, 0x21],
        HpkeKemType::XWingKemDraft6 => [0x4B, 0x45, 0x4D, 0x00, 0x4D],
    };
    proof {
        reveal_strlit("KEM");
        vstd::utf8::is_ascii_chars_encode_utf8("KEM"@);
        assert(id@ =~= suite_id(kem));
    }
    id
}

/// The algorithm of an encapsulation mechanism. X-Wing has none.
pub fn kem_algorithm(kem: HpkeKemType) -> (alg: KemAlgorithm)
    requires
        kem != HpkeKemType::XWingKemDraft6,
    ensures
        alg.code() == kem.code(),
{
    match kem {
        HpkeKemType::DhKemP256 => KemAlgorithm::DhKemP256,
        HpkeKemType::DhKemP384 => KemAlgorithm::DhKemP384,
        HpkeKemType::DhKemP521 => KemAlgorithm::DhKemP521,
        HpkeKemType::DhKem25519 => KemAlgorithm::DhKem25519,
        _ => KemAlgorithm::DhKem448,
    }
}

/// The algorithm of a key derivation function.
pub fn kdf_algorithm(kdf: HpkeKdfType) -> (alg: KdfAlgorithm)
    ensures
        alg.code() == kdf.code(),
{
    match kdf {
        HpkeKdfType::HkdfSha256 => KdfAlgorithm::HkdfSha256,
        HpkeKdfType::HkdfSha384 => KdfAlgorithm::HkdfSha384,
        HpkeKdfType::HkdfSha512 => KdfAlgorithm::HkdfSha512,
    }
}

/// The algorithm of an encryption.
pub fn aead_algorithm(aead: HpkeAeadType) -> (alg: AeadAlgorithm)
    ensures
        alg.code() == aead.code(),
{
    match aead {
        HpkeAeadType::AesGcm128 => AeadAlgorithm::Aes128Gcm,
        HpkeAeadType::AesGcm256 => AeadAlgorithm::Aes256Gcm,
        HpkeAeadType::ChaCha20Poly1305 => AeadAlgorithm::ChaCha20Poly1305,
        HpkeAeadType::Export => AeadAlgorithm::HpkeExport,
    }
}

/// What opening an HPKE context means for the caller: the message, or that decryption
/// failed, whatever the reason.
pub fn decrypted(opened: Result<Vec<u8>, HpkeError>) -> (r: Result<Vec<u8>, CryptoError>)
    ensures
        match opened {
            Ok(pt) => r == Ok::<Vec<u8>, CryptoError>(pt),
            Err(_) => r == Err::<Vec<u8>, CryptoError>(CryptoError::HpkeDecryptionError),
        },
{
    match opened {
        Ok(pt) => Ok(pt),
        Err(_) => Err(CryptoError::HpkeDecryptionError),
    }
}

/// What a receiver gets out of a ciphertext, given the Diffie-Hellman value of its key
/// with the encapsulated key, and its public key.
pub open spec fn opened_from_dh(
    config: HpkeConfig,
    enc: Seq<u8>,
    ct: Seq<u8>,
    dh: Seq<u8>,
    pk_r: Seq<u8>,
    info: Seq<u8>,
    aad: Seq<u8>,
) -> Result<Seq<u8>, CryptoError> {
    let secret = shared_secret(dh, enc + pk_r, suite_id(config.0));
    match context_open(
        config.0.code(),
        config.1.code(),
        config.2.code(),
        secret,
        info,
        aad,
        ct,
    ) {
        Some(pt) => Ok(pt),
        None => Err(CryptoError::HpkeDecryptionError),
    }
}

/// Whether the encryption of a configuration can be run on a message of `n` bytes.
pub open spec fn can_process(aead: HpkeAeadType, n: int) -> bool {
    aead == HpkeAeadType::ChaCha20Poly1305 ==> chacha20_covers(n)
}

/// Opens a ciphertext from the Diffie-Hellman value of the receiver's key with the
/// encapsulated key, and the receiver's public key: derives the shared secret in the
/// context of both public keys, sets up the key schedule, and decrypts.
pub fn open_from_dh(
    config: HpkeConfig,
    input: &HpkeCiphertext,
    dh: &[u8],
    pk_r: &[u8],
    info: &[u8],
    aad: &[u8],
) -> (r: Result<Vec<u8>, CryptoError>)
    requires
        config.0 != HpkeKemType::XWingKemDraft6,
        can_process(config.2, input.ciphertext@.len() - TAG_LEN),
    ensures
        viewed(r) == opened_from_dh(
            config,
            input.kem_output@,
            input.ciphertext@,
            dh@,
            pk_r@,
            info@,
            aad@,
        ),
        config.2 == HpkeAeadType::Export ==> r is Err,
        r matches Ok(pt) ==> pt@.len() + TAG_LEN == input.ciphertext@.len(),
{
    let mut kem_context: Vec<u8> = Vec::new();
    push_all(&mut kem_context, &input.kem_output);
    push_all(&mut kem_context, pk_r);
    assert(kem_context@ =~= input.kem_output@ + pk_r@);
    let suite = kem_suite_id(config.0);
    let secret = extract_and_expand(dh, &kem_context, &suite);
    let kem = kem_algorithm(config.0).id();
    let kdf = kdf_algorithm(config.1).id();
    let aead = aead_algorithm(config.2).id();
    decrypted(key_schedule_open(kem, kdf, aead, &secret, info, aad, &input.ciphertext))
}

} // verus!
