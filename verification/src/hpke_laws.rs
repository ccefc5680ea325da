//! What holds of sealing, opening and deriving taken together.

use crate::backend::context_open;
use crate::delegation::{listed_ciphersuites, receiver_export_outcome, sender_export_outcome};
use crate::hpke_vault::{is_key_type, HpkeVaultBackend, ENC, INIT};
use crate::key_schedule::{opened_from_dh, shared_secret, suite_id};
use crate::path_laws::marked_keys_read_back;
use crate::primitives::{
    is_supported, neutral_point, signature_check, signature_public_key, verifies,
};
use crate::rust_crypto::{
    all_zeros, derived_pair, export_max, has_private_key, is_pair, rust_crypto_keypair,
    rust_crypto_open, x25519, x25519_public, SEALED_LEN, X25519_LEN,
};
use crate::types::{
    Ciphersuite, CryptoError, HpkeAeadType, HpkeConfig, HpkeKemType, HpkeKeyPurpose,
    SignatureScheme,
};
use crate::vault_crypto::{derive_outcome, next_path, open_outcome, routed, seal_outcome};
use crate::vault_path::{marked_key, vault_path};
use std::sync::Arc;
use vstd::prelude::*;

verus! {

/// Whether a vault holds an X25519 private key at a path, and is ready to use it: it
/// replies with the key's public key, and to every peer's public key with the
/// Diffie-Hellman value.
pub open spec fn holds_key(
    vault: Option<Arc<dyn HpkeVaultBackend>>,
    key_type: Seq<char>,
    index: u32,
    sk: Seq<u8>,
) -> bool {
    &&& vault matches Some(v)
    &&& sk.len() == X25519_LEN
    &&& forall|reply: Result<Seq<u8>, CryptoError>| #[trigger]
        v.pubkey_reply(key_type, index, reply) ==> reply == Ok::<Seq<u8>, CryptoError>(
            x25519_public(sk),
        )
    &&& forall|peer: Seq<u8>, reply: Result<Seq<u8>, CryptoError>| #[trigger]
        v.dh_reply(key_type, index, peer, reply) && peer.len() == X25519_LEN ==> reply == Ok::<
            Seq<u8>,
            CryptoError,
        >(x25519(sk, peer))
}

/// Whether the replies of a vault, if there is one, depend on what it is asked alone.
pub open spec fn replies_alike(vault: Option<Arc<dyn HpkeVaultBackend>>) -> bool {
    match vault {
        Some(v) => {
            &&& forall|
                key_type: Seq<char>,
                index: u32,
                r1: Result<Seq<u8>, CryptoError>,
                r2: Result<Seq<u8>, CryptoError>,
            | #[trigger]
                v.pubkey_reply(key_type, index, r1) && #[trigger] v.pubkey_reply(
                    key_type,
                    index,
                    r2,
                ) ==> r1 == r2
            &&& forall|
                key_type: Seq<char>,
                index: u32,
                peer: Seq<u8>,
                r1: Result<Seq<u8>, CryptoError>,
                r2: Result<Seq<u8>, CryptoError>,
            | #[trigger]
                v.dh_reply(key_type, index, peer, r1) && #[trigger] v.dh_reply(
                    key_type,
                    index,
                    peer,
                    r2,
                ) ==> r1 == r2
        },
        None => true,
    }
}

/// Neither of the key types under which keys are derived has a slash in it, and they
/// differ.
pub proof fn key_types_are_names()
    ensures
        !INIT@.contains('/'),
        !ENC@.contains('/'),
        INIT@ != ENC@,
{
    reveal_strlit("init");
    reveal_strlit("enc");
    assert(INIT@.len() == 4);
    assert(ENC@.len() == 3);
}

/// What was sealed to the public key of an X25519 key in the vault, the vault opens:
/// sealing succeeds for every message of up to [`SEALED_LEN`] bytes, and opening with
/// the path to the key gives the message back.
pub proof fn sealed_opens_through_the_vault(
    vault: Option<Arc<dyn HpkeVaultBackend>>,
    key_type: Seq<char>,
    index: u32,
    sk: Seq<u8>,
    config: HpkeConfig,
    info: Seq<u8>,
    aad: Seq<u8>,
    pt: Seq<u8>,
    sealed: Result<(Seq<u8>, Seq<u8>), CryptoError>,
    opened: Result<Seq<u8>, CryptoError>,
)
    requires
        holds_key(vault, key_type, index, sk),
        is_key_type(key_type),
        config.0 == HpkeKemType::DhKem25519,
        seal_outcome(config, x25519_public(sk), info, aad, pt, sealed),
        sealed matches Ok(c) ==> open_outcome(
            vault,
            config,
            c,
            vault_path(key_type, index),
            info,
            aad,
            opened,
        ),
    ensures
        config.2 != HpkeAeadType::Export && aad.len() <= SEALED_LEN && pt.len() <= SEALED_LEN
            ==> sealed is Ok,
        sealed is Ok ==> opened == Ok::<Seq<u8>, CryptoError>(pt),
{
    assert(has_private_key(x25519_public(sk)));
    marked_keys_read_back(key_type, index);
}

/// A key that a provider with a vault derives receives messages: what was sealed to the
/// public half of the pair opens with its private half, for a provider with the same
/// vault, as long as the vault holds the key.
pub proof fn sealed_to_a_derived_vault_key_opens(
    vault: Option<Arc<dyn HpkeVaultBackend>>,
    init: u32,
    enc: u32,
    purpose: HpkeKeyPurpose,
    config: HpkeConfig,
    ikm: Seq<u8>,
    pair: Result<(Seq<u8>, Seq<u8>), CryptoError>,
    sk: Seq<u8>,
    info: Seq<u8>,
    aad: Seq<u8>,
    pt: Seq<u8>,
    sealed: Result<(Seq<u8>, Seq<u8>), CryptoError>,
    opened: Result<Seq<u8>, CryptoError>,
)
    requires
        next_path(vault, init, enc, purpose) matches Some((key_type, index)) && holds_key(
            vault,
            key_type,
            index,
            sk,
        ),
        config.0 == HpkeKemType::DhKem25519,
        derive_outcome(
            vault,
            next_path(vault, init, enc, purpose),
            config,
            ikm,
            pair,
        ),
        pair matches Ok((_, public)) ==> seal_outcome(config, public, info, aad, pt, sealed),
        pair matches Ok((private, _)) ==> (sealed matches Ok(c) ==> open_outcome(
            vault,
            config,
            c,
            private,
            info,
            aad,
            opened,
        )),
    ensures
        pair matches Ok((_, public)) && public == x25519_public(sk),
        config.2 != HpkeAeadType::Export && aad.len() <= SEALED_LEN && pt.len() <= SEALED_LEN
            ==> sealed is Ok,
        sealed is Ok ==> opened == Ok::<Seq<u8>, CryptoError>(pt),
{
    let (key_type, index) = next_path(vault, init, enc, purpose).unwrap();
    sealed_opens_through_the_vault(
        vault,
        key_type,
        index,
        sk,
        config,
        info,
        aad,
        pt,
        sealed,
        opened,
    );
}

/// What was sealed to a public key opens with its raw private key, with a vault or
/// without: with every X25519 key, and with every key of P-256 that was derived. A
/// private key that reads as the path of a key in the vault is left out where there is a
/// vault, since it would be taken for one.
pub proof fn sealed_opens_with_the_raw_key(
    vault: Option<Arc<dyn HpkeVaultBackend>>,
    config: HpkeConfig,
    sk: Seq<u8>,
    pk: Seq<u8>,
    info: Seq<u8>,
    aad: Seq<u8>,
    pt: Seq<u8>,
    sealed: Result<(Seq<u8>, Seq<u8>), CryptoError>,
    opened: Result<Seq<u8>, CryptoError>,
)
    requires
        is_pair(config, sk, pk),
        routed(vault, sk) is None,
        seal_outcome(config, pk, info, aad, pt, sealed),
        sealed matches Ok(c) ==> open_outcome(vault, config, c, sk, info, aad, opened),
    ensures
        sealed is Ok ==> opened == Ok::<Seq<u8>, CryptoError>(pt),
{
}

/// A key pair that is derived without the vault receives messages: what was sealed to
/// its public half opens with its private half. X25519 always has such a pair.
pub proof fn sealed_to_a_derived_raw_key_opens(
    vault1: Option<Arc<dyn HpkeVaultBackend>>,
    vault2: Option<Arc<dyn HpkeVaultBackend>>,
    config: HpkeConfig,
    ikm: Seq<u8>,
    pair: Result<(Seq<u8>, Seq<u8>), CryptoError>,
    info: Seq<u8>,
    aad: Seq<u8>,
    pt: Seq<u8>,
    sealed: Result<(Seq<u8>, Seq<u8>), CryptoError>,
    opened: Result<Seq<u8>, CryptoError>,
)
    requires
        derive_outcome(vault1, None, config, ikm, pair),
        pair matches Ok((_, public)) ==> seal_outcome(config, public, info, aad, pt, sealed),
        pair matches Ok((private, _)) ==> routed(vault2, private) is None,
        pair matches Ok((private, _)) ==> (sealed matches Ok(c) ==> open_outcome(
            vault2,
            config,
            c,
            private,
            info,
            aad,
            opened,
        )),
    ensures
        config.0 == HpkeKemType::DhKem25519 ==> pair is Ok,
        config.0 == HpkeKemType::DhKem25519 && config.2 != HpkeAeadType::Export && aad.len()
            <= SEALED_LEN && pt.len() <= SEALED_LEN ==> sealed is Ok,
        pair is Ok && sealed is Ok ==> opened == Ok::<Seq<u8>, CryptoError>(pt),
{
    if let Ok((private, public)) = pair {
        assert(derived_pair(config, private, public));
        sealed_opens_with_the_raw_key(
            vault2,
            config,
            private,
            public,
            info,
            aad,
            pt,
            sealed,
            opened,
        );
        if config.0 == HpkeKemType::DhKem25519 {
            assert(has_private_key(public));
        }
    }
}

/// Opening through the vault gives what opening with the raw key gives: the vault
/// changes who does the Diffie-Hellman, and nothing else. Left out are encapsulated
/// keys that are no X25519 keys or leave a Diffie-Hellman value of zeros, which opening
/// with a raw key turns down, and raw keys that would be taken for a vault path.
pub proof fn vault_opens_what_the_raw_key_opens(
    vault1: Option<Arc<dyn HpkeVaultBackend>>,
    vault2: Option<Arc<dyn HpkeVaultBackend>>,
    key_type: Seq<char>,
    index: u32,
    sk: Seq<u8>,
    config: HpkeConfig,
    c: (Seq<u8>, Seq<u8>),
    info: Seq<u8>,
    aad: Seq<u8>,
    by_vault: Result<Seq<u8>, CryptoError>,
    by_raw_key: Result<Seq<u8>, CryptoError>,
)
    requires
        holds_key(vault1, key_type, index, sk),
        is_key_type(key_type),
        config.0 == HpkeKemType::DhKem25519,
        c.0.len() == X25519_LEN,
        x25519(sk, c.0) != all_zeros(),
        routed(vault2, sk) is None,
        open_outcome(
            vault1,
            config,
            c,
            vault_path(key_type, index),
            info,
            aad,
            by_vault,
        ),
        open_outcome(vault2, config, c, sk, info, aad, by_raw_key),
    ensures
        by_vault == by_raw_key,
{
    marked_keys_read_back(key_type, index);
}

/// Which key opens a ciphertext is decided by the path, by both of its parts: what comes
/// out is what the Diffie-Hellman value of the key at that path opens.
pub proof fn the_path_chooses_the_key(
    vault: Option<Arc<dyn HpkeVaultBackend>>,
    key_type: Seq<char>,
    index: u32,
    sk: Seq<u8>,
    config: HpkeConfig,
    c: (Seq<u8>, Seq<u8>),
    info: Seq<u8>,
    aad: Seq<u8>,
    opened: Result<Seq<u8>, CryptoError>,
)
    requires
        holds_key(vault, key_type, index, sk),
        is_key_type(key_type),
        c.0.len() == X25519_LEN,
        open_outcome(vault, config, c, vault_path(key_type, index), info, aad, opened),
    ensures
        opened == opened_from_dh(
            config,
            c.0,
            c.1,
            x25519(sk, c.0),
            x25519_public(sk),
            info,
            aad,
        ),
{
    marked_keys_read_back(key_type, index);
}

/// What was sealed to the key at one path opens there and nowhere else, as far as the
/// encryption holds: at another path, where the shared secret of the key there opens
/// nothing, decryption fails.
pub proof fn another_path_does_not_open(
    vault: Option<Arc<dyn HpkeVaultBackend>>,
    key_type1: Seq<char>,
    index1: u32,
    sk1: Seq<u8>,
    key_type2: Seq<char>,
    index2: u32,
    sk2: Seq<u8>,
    config: HpkeConfig,
    info: Seq<u8>,
    aad: Seq<u8>,
    pt: Seq<u8>,
    c: (Seq<u8>, Seq<u8>),
    opened1: Result<Seq<u8>, CryptoError>,
    opened2: Result<Seq<u8>, CryptoError>,
)
    requires
        holds_key(vault, key_type1, index1, sk1),
        holds_key(vault, key_type2, index2, sk2),
        is_key_type(key_type1),
        is_key_type(key_type2),
        config.0 == HpkeKemType::DhKem25519,
        seal_outcome(config, x25519_public(sk1), info, aad, pt, Ok(c)),
        context_open(
            config.0.code(),
            config.1.code(),
            config.2.code(),
            shared_secret(x25519(sk2, c.0), c.0 + x25519_public(sk2), suite_id(config.0)),
            info,
            aad,
            c.1,
        ) is None,
        open_outcome(vault, config, c, vault_path(key_type1, index1), info, aad, opened1),
        open_outcome(vault, config, c, vault_path(key_type2, index2), info, aad, opened2),
    ensures
        opened1 == Ok::<Seq<u8>, CryptoError>(pt),
        opened2 == Err::<Seq<u8>, CryptoError>(CryptoError::HpkeDecryptionError),
{
    the_path_chooses_the_key(vault, key_type1, index1, sk1, config, c, info, aad, opened1);
    the_path_chooses_the_key(vault, key_type2, index2, sk2, config, c, info, aad, opened2);
}

/// Opening repeats: with the same vault, as long as its replies depend on what it is
/// asked alone, the same arguments give the same result.
pub proof fn opening_repeats(
    vault: Option<Arc<dyn HpkeVaultBackend>>,
    config: HpkeConfig,
    c: (Seq<u8>, Seq<u8>),
    sk: Seq<u8>,
    info: Seq<u8>,
    aad: Seq<u8>,
    opened1: Result<Seq<u8>, CryptoError>,
    opened2: Result<Seq<u8>, CryptoError>,
)
    requires
        replies_alike(vault),
        open_outcome(vault, config, c, sk, info, aad, opened1),
        open_outcome(vault, config, c, sk, info, aad, opened2),
    ensures
        opened1 == opened2,
{
}

/// Without a vault, and with private key bytes that are the path of none of its keys,
/// opening is left to `RustCrypto`.
pub proof fn other_openings_are_left_to_rust_crypto(
    vault: Option<Arc<dyn HpkeVaultBackend>>,
    config: HpkeConfig,
    c: (Seq<u8>, Seq<u8>),
    sk: Seq<u8>,
    info: Seq<u8>,
    aad: Seq<u8>,
    opened: Result<Seq<u8>, CryptoError>,
)
    requires
        vault is None || marked_key(sk) is None,
        open_outcome(vault, config, c, sk, info, aad, opened),
    ensures
        opened == rust_crypto_open(config, c.0, c.1, sk, info, aad),
{
}

/// The private half of a pair from the vault is a path that leads back to where the
/// public half came from, and never key bytes; another provider, that has no vault,
/// takes it for a raw key, as which it opens nothing with X25519.
pub proof fn derived_vault_keys_are_paths(
    vault: Option<Arc<dyn HpkeVaultBackend>>,
    init: u32,
    enc: u32,
    purpose: HpkeKeyPurpose,
    config: HpkeConfig,
    ikm: Seq<u8>,
    pair: Result<(Seq<u8>, Seq<u8>), CryptoError>,
    c: (Seq<u8>, Seq<u8>),
    info: Seq<u8>,
    aad: Seq<u8>,
    opened: Result<Seq<u8>, CryptoError>,
)
    requires
        next_path(vault, init, enc, purpose) is Some,
        derive_outcome(
            vault,
            next_path(vault, init, enc, purpose),
            config,
            ikm,
            pair,
        ),
        pair matches Ok((private, _)) ==> open_outcome(
            None,
            config,
            c,
            private,
            info,
            aad,
            opened,
        ),
    ensures
        pair matches Ok((private, _)) ==> routed(vault, private) == next_path(
            vault,
            init,
            enc,
            purpose,
        ),
        pair matches Ok((_, public)) ==> match (vault, next_path(vault, init, enc, purpose)) {
            (Some(v), Some((key_type, index))) => v.pubkey_reply(
                key_type,
                index,
                Ok::<Seq<u8>, CryptoError>(public),
            ),
            _ => false,
        },
        pair matches Ok((private, _)) ==> opened == rust_crypto_open(
            config,
            c.0,
            c.1,
            private,
            info,
            aad,
        ),
        pair is Ok && config.0 == HpkeKemType::DhKem25519 ==> opened == Err::<
            Seq<u8>,
            CryptoError,
        >(CryptoError::HpkeDecryptionError),
{
    let (key_type, index) = next_path(vault, init, enc, purpose).unwrap();
    marked_keys_read_back(key_type, index);
}

/// A key pair in the vault is fixed by the vault's key tree: as long as the vault holds
/// the key at a path, every derivation there gives the same pair, whatever the
/// configuration and the input keying material.
pub proof fn vault_pairs_are_fixed_by_the_key_tree(
    vault: Option<Arc<dyn HpkeVaultBackend>>,
    key_type: Seq<char>,
    index: u32,
    sk: Seq<u8>,
    config: HpkeConfig,
    ikm: Seq<u8>,
    pair: Result<(Seq<u8>, Seq<u8>), CryptoError>,
)
    requires
        holds_key(vault, key_type, index, sk),
        derive_outcome(vault, Some((key_type, index)), config, ikm, pair),
    ensures
        pair == Ok::<(Seq<u8>, Seq<u8>), CryptoError>(
            (vault_path(key_type, index), x25519_public(sk)),
        ),
{
}

/// The key tree alone decides what a derivation in the vault gives: as long as the
/// vault's replies depend on what it is asked alone, two derivations at a path agree,
/// errors included, whatever the configurations and the input keying material.
pub proof fn vault_derivations_repeat(
    vault: Option<Arc<dyn HpkeVaultBackend>>,
    path: (Seq<char>, u32),
    config1: HpkeConfig,
    ikm1: Seq<u8>,
    pair1: Result<(Seq<u8>, Seq<u8>), CryptoError>,
    config2: HpkeConfig,
    ikm2: Seq<u8>,
    pair2: Result<(Seq<u8>, Seq<u8>), CryptoError>,
)
    requires
        vault is Some,
        replies_alike(vault),
        derive_outcome(vault, Some(path), config1, ikm1, pair1),
        derive_outcome(vault, Some(path), config2, ikm2, pair2),
    ensures
        pair1 == pair2,
{
}

/// Without a vault, and for node keys and external keys with one, deriving is left to
/// `RustCrypto`: the pair depends neither on the purpose nor on the counters, so two
/// derivations from the same input agree.
pub proof fn other_derivations_are_left_to_rust_crypto(
    vault1: Option<Arc<dyn HpkeVaultBackend>>,
    init1: u32,
    enc1: u32,
    purpose1: HpkeKeyPurpose,
    vault2: Option<Arc<dyn HpkeVaultBackend>>,
    init2: u32,
    enc2: u32,
    purpose2: HpkeKeyPurpose,
    config: HpkeConfig,
    ikm: Seq<u8>,
    pair1: Result<(Seq<u8>, Seq<u8>), CryptoError>,
    pair2: Result<(Seq<u8>, Seq<u8>), CryptoError>,
)
    requires
        vault1 is None || purpose1 == HpkeKeyPurpose::PathSecret || purpose1
            == HpkeKeyPurpose::ExternalPub,
        vault2 is None || purpose2 == HpkeKeyPurpose::PathSecret || purpose2
            == HpkeKeyPurpose::ExternalPub,
        derive_outcome(vault1, next_path(vault1, init1, enc1, purpose1), config, ikm, pair1),
        derive_outcome(vault2, next_path(vault2, init2, enc2, purpose2), config, ikm, pair2),
    ensures
        pair1 == rust_crypto_keypair(config, ikm),
        pair1 == pair2,
{
}

/// Sender and receiver export the same secret: what is exported with a public key is
/// what its raw private key exports from the encapsulated key.
pub proof fn exported_secrets_agree(
    config: HpkeConfig,
    sk: Seq<u8>,
    pk: Seq<u8>,
    info: Seq<u8>,
    exporter_context: Seq<u8>,
    exporter_length: nat,
    sent: Result<(Seq<u8>, Seq<u8>), CryptoError>,
    received: Result<Seq<u8>, CryptoError>,
)
    requires
        is_pair(config, sk, pk),
        sender_export_outcome(config, pk, info, exporter_context, exporter_length, sent),
        sent matches Ok((enc, _)) ==> receiver_export_outcome(
            config,
            enc,
            sk,
            info,
            exporter_context,
            exporter_length,
            received,
        ),
    ensures
        sent matches Ok((_, secret)) ==> received == Ok::<Seq<u8>, CryptoError>(secret),
        config.0 == HpkeKemType::DhKem25519 && sk.len() == X25519_LEN && pk == x25519_public(sk)
            ==> (sent is Ok <==> exporter_length <= export_max(config.1)),
{
    if config.0 == HpkeKemType::DhKem25519 && sk.len() == X25519_LEN && pk == x25519_public(sk) {
        assert(has_private_key(pk));
    }
}

/// What a generated key signs verifies under the public key that was generated with it.
/// Left out are Ed25519 signatures that start with the neutral point, which no strict
/// check takes.
pub proof fn generated_keys_verify_what_they_sign(
    scheme: SignatureScheme,
    sk: Seq<u8>,
    pk: Seq<u8>,
    data: Seq<u8>,
    signature: Seq<u8>,
    checked: Result<(), CryptoError>,
)
    requires
        pk == signature_public_key(scheme, sk),
        verifies(scheme, data, sk, signature),
        checked == signature_check(scheme, data, pk, signature),
        scheme == SignatureScheme::ED25519 ==> signature.take(32) != neutral_point(),
    ensures
        checked == Ok::<(), CryptoError>(()),
{
}

/// The ciphersuites that are listed as supported are those that are supported.
pub proof fn supported_are_the_listed(suite: Ciphersuite)
    ensures
        is_supported(suite) <==> listed_ciphersuites().contains(suite),
{
    let listed = listed_ciphersuites();
    assert(listed[0] == Ciphersuite::MLS_128_DHKEMX25519_AES128GCM_SHA256_Ed25519);
    assert(listed[1] == Ciphersuite::MLS_128_DHKEMX25519_CHACHA20POLY1305_SHA256_Ed25519);
    assert(listed[2] == Ciphersuite::MLS_128_DHKEMP256_AES128GCM_SHA256_P256);
}

} // verus!
