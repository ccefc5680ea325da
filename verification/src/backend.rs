//! The calls into `std`, `hkdf` and `hpke-rs`, with what is taken for granted of each.

use hkdf::Hkdf;
use hpke_rs::{Hpke, HpkeError, Mode};
use hpke_rs_crypto::types::{AeadAlgorithm, KdfAlgorithm, KemAlgorithm};
use hpke_rs_rust_crypto::HpkeRustCrypto;
use sha2::Sha256;
use vstd::prelude::*;
use vstd::utf8::{decode_utf8, valid_utf8};

verus! {

/// `std::str::from_utf8`, which gives the text that the bytes encode exactly when
/// they are valid UTF-8.
#[verifier::external_body]
pub(crate) fn str_from_utf8(bytes: &[u8]) -> (s: Option<&str>)
    ensures
        s is Some <==> valid_utf8(bytes@),
        s matches Some(text) ==> text@ == decode_utf8(bytes@),
{
    std::str::from_utf8(bytes).ok()
}

/// The longest output of HKDF-SHA256: 255 blocks of 32 bytes.
pub const HKDF_SHA256_MAX: usize = 8160;

/// HKDF-SHA256 of RFC 5869: the output keying material of a given length for a salt,
/// input keying material and info.
pub uninterp spec fn hkdf_sha256_okm(
    salt: Seq<u8>,
    ikm: Seq<u8>,
    info: Seq<u8>,
    len: nat,
) -> Seq<u8>;

/// `hkdf::Hkdf::<Sha256>::new` with a salt, and `expand` of what it gives: extracts
/// from the input keying material and expands to `len` bytes. Expanding fails only
/// beyond 255 blocks.
#[verifier::external_body]
pub(crate) fn hkdf_sha256(salt: &[u8], ikm: &[u8], info: &[u8], len: usize) -> (okm: Vec<u8>)
    requires
        len <= HKDF_SHA256_MAX,
    ensures
        okm@ == hkdf_sha256_okm(salt@, ikm@, info@, len as nat),
        okm@.len() == len,
{
    let mut okm = vec![0u8; len];
    Hkdf::<Sha256>::new(Some(salt), ikm).expand(info, &mut okm).expect("within 255 blocks");
    okm
}

/// Whether ChaCha20Poly1305 has enough key stream for a message of `n` bytes, or turns
/// it down for its length. In between lie the lengths that need one block more than
/// the 2^32 - 2 that the block counter has left.
pub open spec fn chacha20_covers(n: int) -> bool {
    n / 64 != 0xFFFF_FFFE || n % 64 == 0
}

/// The error type of `hpke-rs`.
#[verifier::external_type_specification]
#[verifier::external_body]
pub struct ExHpkeError(hpke_rs::HpkeError);

/// What an HPKE context in base mode opens: the message that `aad` and `ct` hold under
/// the key schedule of a shared secret and `info`, for the algorithms with the given
/// HPKE identifiers, or nothing.
pub uninterp spec fn context_open(
    kem: u16,
    kdf: u16,
    aead: u16,
    shared_secret: Seq<u8>,
    info: Seq<u8>,
    aad: Seq<u8>,
    ct: Seq<u8>,
) -> Option<Seq<u8>>;

/// The identifier of ChaCha20Poly1305 in HPKE.
pub const CHACHA20_POLY1305: u16 = 0x0003;

/// The identifier of an export-only context in HPKE.
pub const EXPORT_ONLY: u16 = 0xFFFF;

/// The length of the tag at the end of every ciphertext, in bytes.
pub const TAG_LEN: usize = 16;

/// `hpke_rs::Hpke::<HpkeRustCrypto>::new` in base mode, its `key_schedule` without a
/// pre-shared key, and `open` of the context that this gives. What comes out is a
/// function of the arguments alone. An export-only context opens nothing, nor is
/// anything opened that is shorter than a tag; a message is as long as its ciphertext
/// without the tag.
#[verifier::external_body]
pub(crate) fn key_schedule_open(
    kem: u16,
    kdf: u16,
    aead: u16,
    shared_secret: &[u8],
    info: &[u8],
    aad: &[u8],
    ct: &[u8],
) -> (opened: Result<Vec<u8>, HpkeError>)
    requires
        aead == CHACHA20_POLY1305 ==> chacha20_covers(ct@.len() - TAG_LEN),
    ensures
        match opened {
            Ok(pt) => context_open(kem, kdf, aead, shared_secret@, info@, aad@, ct@) == Some(pt@),
            Err(_) => context_open(kem, kdf, aead, shared_secret@, info@, aad@, ct@) is None,
        },
        aead == EXPORT_ONLY ==> opened is Err,
        opened matches Ok(pt) ==> pt@.len() + TAG_LEN == ct@.len(),
{
    let kem_id = KemAlgorithm::try_from(kem)?;
    let kdf_id = KdfAlgorithm::try_from(kdf)?;
    let aead_id = AeadAlgorithm::try_from(aead)?;
    let hpke = Hpke::<HpkeRustCrypto>::new(Mode::Base, kem_id, kdf_id, aead_id);
    let mut context = hpke.key_schedule(shared_secret, info, &[], &[])?;
    context.open(aad, ct)
}

} // verus!
