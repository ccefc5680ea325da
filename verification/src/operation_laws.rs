//! What each operation does, spelled out in bytes, numbers, the vault's replies and what
//! the other crates compute.

use crate::backend::{context_open, hkdf_sha256_okm};
use crate::delegation::{
    is_registered, listed_ciphersuites, receiver_export_outcome, sender_export_outcome,
};
use crate::hpke_vault::HpkeVaultBackend;
use crate::key_schedule::{can_process, opened_from_dh, shared_secret, suite_id};
use crate::path_laws::{
    marked_keys_are_paths_of_init_and_enc, read_paths_are_written_out, written_out_paths_are_read,
};
use crate::primitives::{can_expand, can_run, can_sign, is_supported, public_key_len};
use crate::rust_crypto::{
    derived_pair, export_max, has_private_key, is_derived, is_pair, is_point, is_small_order,
    rust_crypto_export, rust_crypto_keypair, rust_crypto_open, x25519, x25519_public,
};
use crate::types::{
    by_ordinal, fails_with, viewed, AeadType, Ciphersuite, CryptoError, HashType, HpkeAeadType,
    HpkeCiphertext, HpkeConfig, HpkeKdfType, HpkeKemType, HpkeKeyPair, HpkeKeyPurpose,
    SignatureScheme,
};
use crate::vault_crypto::{
    can_open, derive_outcome, may_reply, next_path, open_outcome, opened_from_replies,
    pair_from_reply, routed, seal_outcome, vault_open_outcome,
};
use crate::vault_path::{decimal_value, vault_path};
use std::sync::Arc;
use vstd::prelude::*;
use vstd::utf8::encode_utf8;

verus! {

/// A ciphertext and a key pair are seen whole, and so is what a result holds; an error is
/// seen as itself.
pub proof fn values_are_seen_whole(
    c: HpkeCiphertext,
    pair: HpkeKeyPair,
    bytes: Vec<u8>,
    error: CryptoError,
)
    ensures
        c@ == (c.kem_output@, c.ciphertext@),
        pair@ == (pair.private@, pair.public@),
        viewed(Ok::<Vec<u8>, CryptoError>(bytes)) == Ok::<Seq<u8>, CryptoError>(bytes@),
        viewed(Ok::<HpkeCiphertext, CryptoError>(c)) == Ok::<(Seq<u8>, Seq<u8>), CryptoError>(
            (c.kem_output@, c.ciphertext@),
        ),
        viewed(Ok::<HpkeKeyPair, CryptoError>(pair)) == Ok::<(Seq<u8>, Seq<u8>), CryptoError>(
            (pair.private@, pair.public@),
        ),
        viewed(Ok::<(), CryptoError>(())) == Ok::<(), CryptoError>(()),
        viewed(Err::<Vec<u8>, CryptoError>(error)) == Err::<Seq<u8>, CryptoError>(error),
        viewed(Err::<HpkeCiphertext, CryptoError>(error)) == Err::<
            (Seq<u8>, Seq<u8>),
            CryptoError,
        >(error),
        viewed(Err::<HpkeKeyPair, CryptoError>(error)) == Err::<(Seq<u8>, Seq<u8>), CryptoError>(
            error,
        ),
        viewed(Err::<(Vec<u8>, Vec<u8>), CryptoError>(error)) == Err::<
            (Seq<u8>, Seq<u8>),
            CryptoError,
        >(error),
        viewed(Err::<(), CryptoError>(error)) == Err::<(), CryptoError>(error),
        by_ordinal(Ok::<Vec<u8>, CryptoError>(bytes)) == Ok::<Vec<u8>, u8>(bytes),
        by_ordinal(Err::<Vec<u8>, CryptoError>(error)) == Err::<Vec<u8>, u8>(error.ordinal()),
        fails_with(Err::<Vec<u8>, u8>(error.ordinal()), error),
        !fails_with(Ok::<Vec<u8>, u8>(bytes), error),
{
}

/// The identifiers of the algorithms are those that HPKE registers for them, and the
/// lengths those of the algorithms.
pub proof fn algorithms_have_their_numbers()
    ensures
        HpkeKemType::DhKemP256.code() == 0x0010,
        HpkeKemType::DhKemP384.code() == 0x0011,
        HpkeKemType::DhKemP521.code() == 0x0012,
        HpkeKemType::DhKem25519.code() == 0x0020,
        HpkeKemType::DhKem448.code() == 0x0021,
        HpkeKemType::XWingKemDraft6.code() == 0x004D,
        HpkeKdfType::HkdfSha256.code() == 0x0001,
        HpkeKdfType::HkdfSha384.code() == 0x0002,
        HpkeKdfType::HkdfSha512.code() == 0x0003,
        HpkeAeadType::AesGcm128.code() == 0x0001,
        HpkeAeadType::AesGcm256.code() == 0x0002,
        HpkeAeadType::ChaCha20Poly1305.code() == 0x0003,
        HpkeAeadType::Export.code() == 0xFFFF,
        HashType::Sha2_256.size() == 32,
        HashType::Sha2_384.size() == 48,
        HashType::Sha2_512.size() == 64,
        AeadType::Aes128Gcm.key_size() == 16,
        AeadType::Aes256Gcm.key_size() == 32,
        AeadType::ChaCha20Poly1305.key_size() == 32,
        export_max(HpkeKdfType::HkdfSha256) == 8160,
        export_max(HpkeKdfType::HkdfSha384) == 12240,
        export_max(HpkeKdfType::HkdfSha512) == 16320,
        public_key_len(SignatureScheme::ED25519) == 32,
        public_key_len(SignatureScheme::ECDSA_SECP256R1_SHA256) == 65,
        forall|scheme: SignatureScheme| #[trigger]
            can_sign(scheme) <==> scheme == SignatureScheme::ED25519 || scheme
                == SignatureScheme::ECDSA_SECP256R1_SHA256,
{
}

/// Three ciphersuites are supported, and are listed in a fixed order; eight are
/// registered.
pub proof fn ciphersuites_are_those_of_the_algorithms(suite: Ciphersuite, code: u16)
    ensures
        is_supported(suite) <==> suite
            == Ciphersuite::MLS_128_DHKEMX25519_AES128GCM_SHA256_Ed25519 || suite
            == Ciphersuite::MLS_128_DHKEMX25519_CHACHA20POLY1305_SHA256_Ed25519 || suite
            == Ciphersuite::MLS_128_DHKEMP256_AES128GCM_SHA256_P256,
        listed_ciphersuites() == seq![
            Ciphersuite::MLS_128_DHKEMX25519_AES128GCM_SHA256_Ed25519,
            Ciphersuite::MLS_128_DHKEMX25519_CHACHA20POLY1305_SHA256_Ed25519,
            Ciphersuite::MLS_128_DHKEMP256_AES128GCM_SHA256_P256,
        ],
        is_registered(code) <==> 1 <= code <= 7 || code == 0x4D,
{
    assert(Ciphersuite::MLS_128_DHKEMX25519_AES128GCM_SHA256_Ed25519.code() == 1);
    assert(Ciphersuite::MLS_128_DHKEMP256_AES128GCM_SHA256_P256.code() == 2);
    assert(Ciphersuite::MLS_128_DHKEMX25519_CHACHA20POLY1305_SHA256_Ed25519.code() == 3);
    assert(Ciphersuite::MLS_256_DHKEMX448_AES256GCM_SHA512_Ed448.code() == 4);
    assert(Ciphersuite::MLS_256_DHKEMP521_AES256GCM_SHA512_P521.code() == 5);
    assert(Ciphersuite::MLS_256_DHKEMX448_CHACHA20POLY1305_SHA512_Ed448.code() == 6);
    assert(Ciphersuite::MLS_256_DHKEMP384_AES256GCM_SHA384_P384.code() == 7);
    assert(Ciphersuite::MLS_256_XWING_CHACHA20POLY1305_SHA256_Ed25519.code() == 0x4D);
}

/// What callers have to see to: no more than that there is a key schedule, that the key
/// stream of ChaCha20 lasts, and that nonces are twelve bytes long.
pub proof fn ordinary_inputs_are_taken(
    config: HpkeConfig,
    ct: Seq<u8>,
    n: int,
    alg: AeadType,
    key: Seq<u8>,
    nonce: Seq<u8>,
)
    ensures
        can_process(config.2, n) <==> (config.2 == HpkeAeadType::ChaCha20Poly1305 ==> n / 64
            != 0xFFFF_FFFE || n % 64 == 0),
        can_open(config, ct) <==> config.0 != HpkeKemType::XWingKemDraft6 && (config.2
            == HpkeAeadType::ChaCha20Poly1305 ==> (ct.len() - 16) / 64 != 0xFFFF_FFFE || (ct.len()
            - 16) % 64 == 0),
        can_run(alg, key, nonce, n) <==> (key.len() == alg.key_size() ==> nonce.len() == 12 && (alg
            == AeadType::ChaCha20Poly1305 ==> n / 64 != 0xFFFF_FFFE || n % 64 == 0)),
{
}

/// Expanding succeeds just with a pseudorandom key of at least a digest, and up to 255
/// digests.
pub proof fn expanding_goes_up_to_255_digests(hash_type: HashType, prk: Seq<u8>, len: nat)
    ensures
        hash_type == HashType::Sha2_256 ==> (can_expand(hash_type, prk, len) <==> 32 <= prk.len()
            && len <= 8160),
        hash_type == HashType::Sha2_384 ==> (can_expand(hash_type, prk, len) <==> 48 <= prk.len()
            && len <= 12240),
        hash_type == HashType::Sha2_512 ==> (can_expand(hash_type, prk, len) <==> 64 <= prk.len()
            && len <= 16320),
{
}

/// The shared secret is the one of RFC 9180, section 4.1: HKDF-SHA256 without a salt, of
/// the labeled Diffie-Hellman value, expanded to 32 bytes with the labeled context.
pub proof fn the_shared_secret_is_labeled_hkdf(
    dh: Seq<u8>,
    kem_context: Seq<u8>,
    suite: Seq<u8>,
)
    ensures
        shared_secret(dh, kem_context, suite) == hkdf_sha256_okm(
            Seq::empty(),
            encode_utf8("HPKE-v1"@) + suite + encode_utf8("eae_prk"@) + dh,
            seq![0u8, 32u8] + encode_utf8("HPKE-v1"@) + suite + encode_utf8("shared_secret"@)
                + kem_context,
            32,
        ),
{
    assert(crate::key_schedule::be16(32) =~= seq![0u8, 32u8]);
}

/// The suite of an encapsulation mechanism is `KEM` and the mechanism's identifier, in
/// two bytes of which the higher comes first.
pub proof fn the_suite_names_the_mechanism(kem: HpkeKemType)
    ensures
        suite_id(kem) == seq![
            0x4Bu8,
            0x45,
            0x4D,
            0x00,
            match kem {
                HpkeKemType::DhKemP256 => 0x10u8,
                HpkeKemType::DhKemP384 => 0x11,
                HpkeKemType::DhKemP521 => 0x12,
                HpkeKemType::DhKem25519 => 0x20,
                HpkeKemType::DhKem448 => 0x21,
                HpkeKemType::XWingKemDraft6 => 0x4D,
            },
        ],
{
    reveal_strlit("KEM");
    vstd::utf8::is_ascii_chars_encode_utf8("KEM"@);
}

/// From a Diffie-Hellman value, a ciphertext opens to what the HPKE context of the
/// configuration and of the shared secret holds, with the encapsulated key and the
/// receiver's public key, in this order, for a context; where that holds nothing,
/// decryption fails.
pub proof fn a_diffie_hellman_value_opens_by_the_context(
    config: HpkeConfig,
    enc: Seq<u8>,
    ct: Seq<u8>,
    dh: Seq<u8>,
    pk_r: Seq<u8>,
    info: Seq<u8>,
    aad: Seq<u8>,
)
    ensures
        ({
            let suite = suite_id(config.0);
            let secret = hkdf_sha256_okm(
                Seq::empty(),
                encode_utf8("HPKE-v1"@) + suite + encode_utf8("eae_prk"@) + dh,
                seq![0u8, 32u8] + encode_utf8("HPKE-v1"@) + suite + encode_utf8("shared_secret"@)
                    + (enc + pk_r),
                32,
            );
            let opened = context_open(
                config.0.code(),
                config.1.code(),
                config.2.code(),
                secret,
                info,
                aad,
                ct,
            );
            &&& opened matches Some(pt) ==> opened_from_dh(config, enc, ct, dh, pk_r, info, aad)
                == Ok::<Seq<u8>, CryptoError>(pt)
            &&& opened is None ==> opened_from_dh(config, enc, ct, dh, pk_r, info, aad) == Err::<
                Seq<u8>,
                CryptoError,
            >(CryptoError::HpkeDecryptionError)
        }),
{
    the_shared_secret_is_labeled_hkdf(dh, enc + pk_r, suite_id(config.0));
}

/// The vault's replies decide what comes of a path: an error of the first, or else of the
/// second, is the result; two values open as [`a_diffie_hellman_value_opens_by_the_context`]
/// says, and a public key makes a pair with the path to it.
pub proof fn replies_are_used_as_they_are(
    config: HpkeConfig,
    c: (Seq<u8>, Seq<u8>),
    dh: Seq<u8>,
    pk_r: Seq<u8>,
    error: CryptoError,
    reply: Result<Seq<u8>, CryptoError>,
    info: Seq<u8>,
    aad: Seq<u8>,
    key_type: Seq<char>,
    index: u32,
)
    ensures
        opened_from_replies(config, c, Err(error), reply, info, aad) == Err::<
            Seq<u8>,
            CryptoError,
        >(error),
        opened_from_replies(config, c, Ok(dh), Err(error), info, aad) == Err::<
            Seq<u8>,
            CryptoError,
        >(error),
        opened_from_replies(config, c, Ok(dh), Ok(pk_r), info, aad) == opened_from_dh(
            config,
            c.0,
            c.1,
            dh,
            pk_r,
            info,
            aad,
        ),
        pair_from_reply(key_type, index, Ok(pk_r)) == Ok::<(Seq<u8>, Seq<u8>), CryptoError>(
            (vault_path(key_type, index), pk_r),
        ),
        pair_from_reply(key_type, index, Err(error)) == Err::<(Seq<u8>, Seq<u8>), CryptoError>(
            error,
        ),
{
}

/// Opening with a key in the vault asks it for the Diffie-Hellman value with the
/// encapsulated key at that very path, and then for the public key there; an error comes
/// out as it is, and two values open the message.
pub proof fn vault_openings_follow_the_replies(
    vault: Option<Arc<dyn HpkeVaultBackend>>,
    config: HpkeConfig,
    c: (Seq<u8>, Seq<u8>),
    key_type: Seq<char>,
    index: u32,
    info: Seq<u8>,
    aad: Seq<u8>,
    r: Result<Seq<u8>, CryptoError>,
)
    requires
        vault_open_outcome(vault, config, c, key_type, index, info, aad, r),
    ensures
        match vault {
            None => r == Err::<Seq<u8>, CryptoError>(CryptoError::CryptoLibraryError),
            Some(v) => {
                ||| exists|error: CryptoError| #[trigger]
                    v.dh_reply(key_type, index, c.0, Err(error)) && r == Err::<
                        Seq<u8>,
                        CryptoError,
                    >(error)
                ||| exists|dh: Seq<u8>, error: CryptoError| #[trigger]
                    v.dh_reply(key_type, index, c.0, Ok(dh)) && #[trigger] v.pubkey_reply(
                        key_type,
                        index,
                        Err(error),
                    ) && r == Err::<Seq<u8>, CryptoError>(error)
                ||| exists|dh: Seq<u8>, pk_r: Seq<u8>| #[trigger]
                    v.dh_reply(key_type, index, c.0, Ok(dh)) && #[trigger] v.pubkey_reply(
                        key_type,
                        index,
                        Ok(pk_r),
                    ) && r == opened_from_dh(config, c.0, c.1, dh, pk_r, info, aad)
            },
        },
{
    if let Some(v) = vault {
        let dh = choose|dh: Result<Seq<u8>, CryptoError>| #[trigger]
            v.dh_reply(key_type, index, c.0, dh) && match dh {
                Err(error) => r == Err::<Seq<u8>, CryptoError>(error),
                Ok(_) => exists|pk_r: Result<Seq<u8>, CryptoError>| #[trigger]
                    v.pubkey_reply(key_type, index, pk_r) && r == opened_from_replies(
                        config,
                        c,
                        dh,
                        pk_r,
                        info,
                        aad,
                    ),
            };
        match dh {
            Err(error) => {
                assert(v.dh_reply(key_type, index, c.0, Err(error)));
            },
            Ok(value) => {
                let pk_r = choose|pk_r: Result<Seq<u8>, CryptoError>| #[trigger]
                    v.pubkey_reply(key_type, index, pk_r) && r == opened_from_replies(
                        config,
                        c,
                        dh,
                        pk_r,
                        info,
                        aad,
                    );
                assert(v.dh_reply(key_type, index, c.0, Ok(value)));
                match pk_r {
                    Err(error) => {
                        assert(v.pubkey_reply(key_type, index, Err(error)));
                    },
                    Ok(key) => {
                        assert(v.pubkey_reply(key_type, index, Ok(key)));
                    },
                }
            },
        }
    }
}

/// Private key bytes that do not start with `vault:` are a raw key, for every provider:
/// what opens is what `RustCrypto` opens with them. So are bytes that are the path of
/// neither an `init` nor an `enc` key, and without a vault all bytes.
pub proof fn raw_keys_are_opened_by_rust_crypto(
    vault: Option<Arc<dyn HpkeVaultBackend>>,
    config: HpkeConfig,
    c: (Seq<u8>, Seq<u8>),
    sk: Seq<u8>,
    info: Seq<u8>,
    aad: Seq<u8>,
    opened: Result<Seq<u8>, CryptoError>,
)
    requires
        open_outcome(vault, config, c, sk, info, aad, opened),
        ({
            ||| vault is None
            ||| !encode_utf8("vault:"@).is_prefix_of(sk)
            ||| !exists|key_type: Seq<char>, spelled: Seq<u8>|
                (key_type == "init"@ || key_type == "enc"@) && sk == encode_utf8("vault:"@)
                    + encode_utf8(key_type) + seq![0x2Fu8] + spelled
        }),
    ensures
        opened == rust_crypto_open(config, c.0, c.1, sk, info, aad),
        routed(vault, sk) is None,
{
    if let Some((key_type, index)) = routed(vault, sk) {
        marked_keys_are_paths_of_init_and_enc(sk, key_type, index);
        read_paths_are_written_out(sk, key_type, index);
        let (sign, digits) = choose|sign: Seq<u8>, digits: Seq<u8>|
            {
                &&& sk == encode_utf8("vault:"@) + encode_utf8(key_type) + seq![0x2Fu8]
                    + #[trigger] (sign + digits)
                &&& sign == Seq::<u8>::empty() || sign == seq![0x2Bu8]
                &&& 0 < digits.len()
                &&& forall|k: int| 0 <= k < digits.len() ==> 0x30 <= #[trigger] digits[k] <= 0x39
                &&& decimal_value(digits) == index
            };
        assert(sk == encode_utf8("vault:"@) + encode_utf8(key_type) + seq![0x2Fu8] + (sign
            + digits));
    }
}

/// With a vault, private key bytes that are the path of an `init` or `enc` key are opened
/// with the vault's key of that type and that index, however the index is written.
pub proof fn vault_paths_are_opened_by_the_vault(
    vault: Option<Arc<dyn HpkeVaultBackend>>,
    config: HpkeConfig,
    c: (Seq<u8>, Seq<u8>),
    key_type: Seq<char>,
    sign: Seq<u8>,
    digits: Seq<u8>,
    info: Seq<u8>,
    aad: Seq<u8>,
    opened: Result<Seq<u8>, CryptoError>,
)
    requires
        vault is Some,
        key_type == "init"@ || key_type == "enc"@,
        sign == Seq::<u8>::empty() || sign == seq![0x2Bu8],
        0 < digits.len(),
        forall|k: int| 0 <= k < digits.len() ==> 0x30 <= #[trigger] digits[k] <= 0x39,
        decimal_value(digits) <= u32::MAX,
        open_outcome(
            vault,
            config,
            c,
            encode_utf8("vault:"@) + encode_utf8(key_type) + seq![0x2Fu8] + sign + digits,
            info,
            aad,
            opened,
        ),
    ensures
        vault_open_outcome(
            vault,
            config,
            c,
            key_type,
            decimal_value(digits) as u32,
            info,
            aad,
            opened,
        ),
{
    reveal_strlit("init");
    reveal_strlit("enc");
    written_out_paths_are_read(key_type, sign, digits);
}

/// What callers have to see to where the vault opens: no more than that there is a key
/// schedule to go on with, if the vault may give both replies.
pub proof fn vault_errors_ask_nothing_of_the_configuration(
    vault: Option<Arc<dyn HpkeVaultBackend>>,
    key_type: Seq<char>,
    index: u32,
    enc: Seq<u8>,
)
    ensures
        may_reply(vault, key_type, index, enc) ==> (vault matches Some(v) && (exists|dh: Seq<u8>|
         #[trigger]
            v.dh_reply(key_type, index, enc, Ok(dh))) && (exists|pk_r: Seq<u8>| #[trigger]
            v.pubkey_reply(key_type, index, Ok(pk_r)))),
{
}

/// An init key comes from the vault's `init` keys and an encryption key from its `enc`
/// keys, at the index that the counter shows: the public half is what the vault replies
/// there, the private half is the path, and an error of the vault is the result. All
/// other pairs, and all pairs without a vault, are those of `RustCrypto`.
pub proof fn derivations_ask_the_key_tree(
    vault: Option<Arc<dyn HpkeVaultBackend>>,
    init: u32,
    enc: u32,
    purpose: HpkeKeyPurpose,
    config: HpkeConfig,
    ikm: Seq<u8>,
    pair: Result<(Seq<u8>, Seq<u8>), CryptoError>,
)
    requires
        derive_outcome(vault, next_path(vault, init, enc, purpose), config, ikm, pair),
    ensures
        match (vault, purpose) {
            (Some(v), HpkeKeyPurpose::InitKey) => match pair {
                Ok((private, public)) => v.pubkey_reply("init"@, init, Ok(public)) && private
                    == vault_path("init"@, init),
                Err(error) => v.pubkey_reply("init"@, init, Err(error)),
            },
            (Some(v), HpkeKeyPurpose::EncryptionKey) => match pair {
                Ok((private, public)) => v.pubkey_reply("enc"@, enc, Ok(public)) && private
                    == vault_path("enc"@, enc),
                Err(error) => v.pubkey_reply("enc"@, enc, Err(error)),
            },
            _ => pair == rust_crypto_keypair(config, ikm),
        },
{
}

/// What is sealed is a message for the holder of the private key, and is 16 bytes longer
/// than the message: whoever derived the pair opens it with the raw private key, and so
/// does every X25519 private key with that public key, with the key itself or with its
/// Diffie-Hellman value.
pub proof fn sealed_messages_are_for_the_private_key(
    config: HpkeConfig,
    ikm: Seq<u8>,
    sk: Seq<u8>,
    pk: Seq<u8>,
    info: Seq<u8>,
    aad: Seq<u8>,
    pt: Seq<u8>,
    c: (Seq<u8>, Seq<u8>),
)
    requires
        seal_outcome(config, pk, info, aad, pt, Ok(c)),
    ensures
        c.1.len() == pt.len() + 16,
        rust_crypto_keypair(config, ikm) == Ok::<(Seq<u8>, Seq<u8>), CryptoError>((sk, pk))
            ==> rust_crypto_open(config, c.0, c.1, sk, info, aad) == Ok::<Seq<u8>, CryptoError>(pt),
        config.0 == HpkeKemType::DhKem25519 && sk.len() == 32 && x25519_public(sk) == pk
            ==> rust_crypto_open(config, c.0, c.1, sk, info, aad) == Ok::<Seq<u8>, CryptoError>(pt),
        config.0 == HpkeKemType::DhKem25519 && sk.len() == 32 && x25519_public(sk) == pk
            ==> opened_from_dh(config, c.0, c.1, x25519(sk, c.0), pk, info, aad) == Ok::<
            Seq<u8>,
            CryptoError,
        >(pt),
        config.0 == HpkeKemType::DhKem25519 ==> c.0.len() == 32,
{
    if rust_crypto_keypair(config, ikm) == Ok::<(Seq<u8>, Seq<u8>), CryptoError>((sk, pk)) {
        assert(derived_pair(config, sk, pk));
        assert(is_pair(config, sk, pk));
    }
    if config.0 == HpkeKemType::DhKem25519 && sk.len() == 32 && x25519_public(sk) == pk {
        assert(is_pair(config, sk, pk));
    }
}

/// Sealing succeeds, with an encryption and for messages and associated data of less than
/// four gigabytes: to the public half of every derived pair and every other point, on
/// P-256 as far as fresh keys can be drawn there; and to the public key of every X25519
/// private key, and every other key that some private key has a Diffie-Hellman value
/// with. To all else it fails, and with one error alone.
pub proof fn sealing_succeeds_to_keys(
    config: HpkeConfig,
    ikm: Seq<u8>,
    sk: Seq<u8>,
    pk: Seq<u8>,
    info: Seq<u8>,
    aad: Seq<u8>,
    pt: Seq<u8>,
    sealed: Result<(Seq<u8>, Seq<u8>), CryptoError>,
)
    requires
        seal_outcome(config, pk, info, aad, pt, sealed),
        config.2 != HpkeAeadType::Export,
        aad.len() <= 0xFFFF_FFFF,
        pt.len() <= 0xFFFF_FFFF,
    ensures
        sealed matches Err(error) ==> error == CryptoError::CryptoLibraryError,
        config.0 == HpkeKemType::DhKem25519 && sk.len() == 32 && x25519_public(sk) == pk
            ==> sealed is Ok,
        config.0 == HpkeKemType::DhKem25519 && sk.len() == 32 && pk.len() == 32 && x25519(sk, pk)
            != Seq::new(32, |i: int| 0u8) ==> sealed is Ok,
        config.0 == HpkeKemType::DhKem25519 && rust_crypto_keypair(config, ikm) == Ok::<
            (Seq<u8>, Seq<u8>),
            CryptoError,
        >((sk, pk)) && sk.len() == 32 && x25519_public(sk) == pk ==> sealed is Ok,
        config.0 == HpkeKemType::DhKemP256 && (forall|seed: Seq<u8>|
            seed.len() == 32 ==> #[trigger] rust_crypto_keypair(config, seed) is Ok)
            && rust_crypto_keypair(config, ikm) == Ok::<(Seq<u8>, Seq<u8>), CryptoError>((sk, pk))
            ==> sealed is Ok,
        config.0 == HpkeKemType::DhKemP256 && (forall|seed: Seq<u8>|
            seed.len() == 32 ==> #[trigger] rust_crypto_keypair(config, seed) is Ok)
            && rust_crypto_export(config, pk, sk, Seq::empty(), Seq::empty(), 0) is Ok
            ==> sealed is Ok,
        config.0 == HpkeKemType::DhKem25519 && pk.len() != 32 ==> sealed is Err,
        config.0 == HpkeKemType::DhKemP384 || config.0 == HpkeKemType::DhKemP521 || config.0
            == HpkeKemType::DhKem448 ==> sealed is Err,
{
    if sk.len() == 32 && x25519_public(sk) == pk {
        assert(has_private_key(pk));
    }
    if sk.len() == 32 && pk.len() == 32 && x25519(sk, pk) != Seq::new(32, |i: int| 0u8) {
        assert(!is_small_order(pk)) by {
            assert(crate::rust_crypto::all_zeros() =~= Seq::new(32, |i: int| 0u8));
        }
    }
    if rust_crypto_keypair(config, ikm) == Ok::<(Seq<u8>, Seq<u8>), CryptoError>((sk, pk)) {
        assert(derived_pair(config, sk, pk));
        assert(is_derived(config, pk));
    }
    if rust_crypto_export(config, pk, sk, Seq::empty(), Seq::empty(), 0) is Ok {
        assert(is_point(config, pk));
    }
}

/// What is exported with a public key is what the private key exports from the
/// encapsulated key, as long as was asked for; receiving is as `RustCrypto` has it.
pub proof fn exports_are_for_the_private_key(
    config: HpkeConfig,
    ikm: Seq<u8>,
    sk: Seq<u8>,
    pk: Seq<u8>,
    info: Seq<u8>,
    exporter_context: Seq<u8>,
    exporter_length: nat,
    sent: Result<(Seq<u8>, Seq<u8>), CryptoError>,
    enc: Seq<u8>,
    received: Result<Seq<u8>, CryptoError>,
)
    requires
        sender_export_outcome(config, pk, info, exporter_context, exporter_length, sent),
        receiver_export_outcome(config, enc, sk, info, exporter_context, exporter_length, received),
    ensures
        received == rust_crypto_export(config, enc, sk, info, exporter_context, exporter_length),
        sent matches Ok((_, secret)) ==> secret.len() == exporter_length,
        sent matches Ok((kem_output, secret)) ==> (rust_crypto_keypair(config, ikm) == Ok::<
            (Seq<u8>, Seq<u8>),
            CryptoError,
        >((sk, pk)) || config.0 == HpkeKemType::DhKem25519 && sk.len() == 32 && x25519_public(sk)
            == pk ==> rust_crypto_export(
            config,
            kem_output,
            sk,
            info,
            exporter_context,
            exporter_length,
        ) == Ok::<Seq<u8>, CryptoError>(secret)),
        config.0 == HpkeKemType::DhKem25519 && sk.len() == 32 && x25519_public(sk) == pk
            && exporter_length <= export_max(config.1) ==> sent is Ok,
        config.0 == HpkeKemType::DhKemP256 && (forall|seed: Seq<u8>|
            seed.len() == 32 ==> #[trigger] rust_crypto_keypair(config, seed) is Ok)
            && rust_crypto_keypair(config, ikm) == Ok::<(Seq<u8>, Seq<u8>), CryptoError>((sk, pk))
            && exporter_length <= export_max(config.1) ==> sent is Ok,
        sent matches Err(error) ==> error == CryptoError::SenderSetupError || error
            == CryptoError::ExporterError && export_max(config.1) < exporter_length,
{
    if rust_crypto_keypair(config, ikm) == Ok::<(Seq<u8>, Seq<u8>), CryptoError>((sk, pk)) {
        assert(derived_pair(config, sk, pk));
        assert(is_derived(config, pk));
        assert(is_pair(config, sk, pk));
    }
    if config.0 == HpkeKemType::DhKem25519 && sk.len() == 32 && x25519_public(sk) == pk {
        assert(has_private_key(pk));
        assert(is_pair(config, sk, pk));
    }
}

} // verus!
