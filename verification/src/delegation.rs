//! The operations that the vault has no part in: each is handed to `RustCrypto`
//! unchanged.

use crate::backend::TAG_LEN;
use crate::primitives::{
    self, aead_opened, aead_sealed, can_expand, can_run, can_sign, digest, expanded_okm,
    extracted_prk, hmac_code, is_supported, public_key_len, signature_check, signature_of,
    signature_public_key, verifies, ED25519_SIGNATURE_LEN, SIGNATURE_KEY_LEN,
};
use crate::rust_crypto::{
    self, all_zeros, draws_keys, export_max, exported_to, has_curve, has_private_key, is_derived,
    is_point, is_small_order,
    rust_crypto_export, x25519, SEALED_LEN, X25519_LEN,
};
use crate::types::{
    by_ordinal, from_ordinals, viewed, AeadType, Ciphersuite, CryptoError, HashType, HpkeConfig, HpkeKemType,
    RandError, SignatureScheme,
};
use crate::vault_crypto::VaultCryptoProvider;
use openmls_rust_crypto::RustCrypto;
use vstd::prelude::*;

verus! {

/// Whether a ciphersuite is registered under a code.
pub open spec fn is_registered(code: u16) -> bool {
    exists|suite: Ciphersuite| #[trigger] suite.code() == code
}

/// The ciphersuites whose algorithms are all there, in the order in which they are
/// listed.
pub open spec fn listed_ciphersuites() -> Seq<Ciphersuite> {
    seq![
        Ciphersuite::MLS_128_DHKEMX25519_AES128GCM_SHA256_Ed25519,
        Ciphersuite::MLS_128_DHKEMX25519_CHACHA20POLY1305_SHA256_Ed25519,
        Ciphersuite::MLS_128_DHKEMP256_AES128GCM_SHA256_P256,
    ]
}

/// The ciphersuites that are registered under some codes.
pub fn ciphersuites(codes: &[u16]) -> (suites: Vec<Ciphersuite>)
    requires
        forall|i: int| 0 <= i < codes@.len() ==> is_registered(#[trigger] codes@[i]),
    ensures
        suites@.len() == codes@.len(),
        forall|i: int| 0 <= i < codes@.len() ==> (#[trigger] suites@[i]).code() == codes@[i],
{
    let mut suites: Vec<Ciphersuite> = Vec::new();
    for i in 0..codes.len()
        invariant
            forall|j: int| 0 <= j < codes@.len() ==> is_registered(#[trigger] codes@[j]),
            suites@.len() == i,
            forall|j: int| 0 <= j < i ==> (#[trigger] suites@[j]).code() == codes@[j],
    {
        assert(is_registered(codes@[i as int]));
        if let Some(suite) = Ciphersuite::from_code(codes[i]) {
            suites.push(suite);
        }
    }
    suites
}

/// What setting up a sending context and exporting may give. The encapsulated key is
/// random; every one of them leads its receiver to the same secret.
pub open spec fn sender_export_outcome(
    config: HpkeConfig,
    pk_r: Seq<u8>,
    info: Seq<u8>,
    exporter_context: Seq<u8>,
    exporter_length: nat,
    r: Result<(Seq<u8>, Seq<u8>), CryptoError>,
) -> bool {
    match r {
        Ok(exported) => {
            &&& has_curve(config.0)
            &&& config.0 == HpkeKemType::DhKemP256 ==> is_point(config, pk_r)
            &&& config.0 == HpkeKemType::DhKem25519 ==> pk_r.len() == X25519_LEN && !is_small_order(
                pk_r,
            )
            &&& exporter_length <= export_max(config.1)
            &&& exported.1.len() == exporter_length
            &&& exported_to(config, pk_r, info, exporter_context, exporter_length, exported)
        },
        Err(CryptoError::SenderSetupError) => {
            &&& config.0 == HpkeKemType::DhKem25519 ==> (pk_r.len() != X25519_LEN || is_small_order(
                pk_r,
            )) && !has_private_key(pk_r)
            &&& config.0 == HpkeKemType::DhKemP256 && draws_keys(config) ==> !is_point(config, pk_r)
                && !is_derived(config, pk_r)
        },
        Err(CryptoError::ExporterError) => {
            &&& has_curve(config.0)
            &&& config.0 == HpkeKemType::DhKemP256 ==> is_point(config, pk_r)
            &&& config.0 == HpkeKemType::DhKem25519 ==> pk_r.len() == X25519_LEN && !is_small_order(
                pk_r,
            )
            &&& export_max(config.1) < exporter_length
        },
        Err(_) => false,
    }
}

/// What setting up a receiving context and exporting gives.
pub open spec fn receiver_export_outcome(
    config: HpkeConfig,
    enc: Seq<u8>,
    sk_r: Seq<u8>,
    info: Seq<u8>,
    exporter_context: Seq<u8>,
    exporter_length: nat,
    r: Result<Seq<u8>, CryptoError>,
) -> bool {
    &&& r == rust_crypto_export(config, enc, sk_r, info, exporter_context, exporter_length)
    &&& config.0 == HpkeKemType::DhKem25519 ==> (r == Err::<Seq<u8>, CryptoError>(
        CryptoError::ReceiverSetupError,
    ) <==> sk_r.len() != X25519_LEN || enc.len() != X25519_LEN || x25519(sk_r, enc) == all_zeros())
    &&& match r {
        Ok(secret) => has_curve(config.0) && secret.len() == exporter_length && exporter_length
            <= export_max(config.1),
        Err(CryptoError::ReceiverSetupError) => true,
        Err(CryptoError::ExporterError) => has_curve(config.0) && export_max(config.1)
            < exporter_length,
        Err(_) => false,
    }
}

/// Whether `RustCrypto` may give this reply when it is asked for a signature key pair.
pub closed spec fn key_gen_reply(
    inner: &RustCrypto,
    alg: SignatureScheme,
    r: Result<(Vec<u8>, Vec<u8>), CryptoError>,
) -> bool {
    call_ensures(primitives::signature_key_gen, (inner, alg), by_ordinal(r))
}

/// Whether `RustCrypto` may give this reply when it is asked to set up a sending context
/// and export from it.
pub closed spec fn sender_export_reply(
    inner: &RustCrypto,
    config: HpkeConfig,
    pk_r: &[u8],
    info: &[u8],
    exporter_context: &[u8],
    exporter_length: usize,
    r: Result<(Vec<u8>, Vec<u8>), CryptoError>,
) -> bool {
    call_ensures(
        rust_crypto::hpke_setup_sender_and_export,
        (inner, config, pk_r, info, exporter_context, exporter_length),
        by_ordinal(r),
    )
}

/// Whether `RustCrypto` may give this reply when it is asked for an array of random
/// bytes.
pub closed spec fn random_array_reply<const N: usize>(
    inner: &RustCrypto,
    r: Result<[u8; N], RandError>,
) -> bool {
    call_ensures(primitives::random_array::<N>, (inner,), r)
}

/// Whether `RustCrypto` may give this reply when it is asked for random bytes.
pub closed spec fn random_vec_reply(
    inner: &RustCrypto,
    len: usize,
    r: Result<Vec<u8>, RandError>,
) -> bool {
    call_ensures(primitives::random_vec, (inner, len), r)
}

/// The signature keys that are generated are those that `RustCrypto` draws: just the
/// replies that the call may give for this very scheme.
pub(crate) proof fn generating_keys_is_the_call(
    inner: &RustCrypto,
    alg: SignatureScheme,
    r: Result<(Vec<u8>, Vec<u8>), CryptoError>,
)
    ensures
        key_gen_reply(inner, alg, r) <==> call_ensures(
            primitives::signature_key_gen,
            (inner, alg),
            match r {
                Ok(pair) => Ok(pair),
                Err(error) => Err(error.ordinal()),
            },
        ),
{
}

/// What is exported to a receiver is what `RustCrypto` exports: just the replies that
/// the call may give for these very arguments.
pub(crate) proof fn sender_exports_are_the_call(
    inner: &RustCrypto,
    config: HpkeConfig,
    pk_r: &[u8],
    info: &[u8],
    exporter_context: &[u8],
    exporter_length: usize,
    r: Result<(Vec<u8>, Vec<u8>), CryptoError>,
)
    ensures
        sender_export_reply(
            inner,
            config,
            pk_r,
            info,
            exporter_context,
            exporter_length,
            r,
        ) <==> call_ensures(
            rust_crypto::hpke_setup_sender_and_export,
            (inner, config, pk_r, info, exporter_context, exporter_length),
            match r {
                Ok(exported) => Ok(exported),
                Err(error) => Err(error.ordinal()),
            },
        ),
{
}

/// Random bytes are those that `RustCrypto` draws, in an array and in a vector: just the
/// replies that the calls may give.
pub(crate) proof fn random_bytes_are_the_calls<const N: usize>(
    inner: &RustCrypto,
    array: Result<[u8; N], RandError>,
    len: usize,
    vec: Result<Vec<u8>, RandError>,
)
    ensures
        random_array_reply(inner, array) <==> call_ensures(
            primitives::random_array::<N>,
            (inner,),
            array,
        ),
        random_vec_reply(inner, len, vec) <==> call_ensures(
            primitives::random_vec,
            (inner, len),
            vec,
        ),
{
}

impl VaultCryptoProvider {
    /// Whether all the algorithms of a ciphersuite are there.
    pub fn supports(&self, ciphersuite: Ciphersuite) -> (r: Result<(), CryptoError>)
        ensures
            r == if is_supported(ciphersuite) {
                Ok::<(), CryptoError>(())
            } else {
                Err(CryptoError::UnsupportedCiphersuite)
            },
    {
        from_ordinals(primitives::supports(self.rand_provider(), ciphersuite))
    }

    /// The ciphersuites whose algorithms are all there.
    pub fn supported_ciphersuites(&self) -> (suites: Vec<Ciphersuite>)
        ensures
            suites@ == listed_ciphersuites(),
    {
        let codes = primitives::supported_ciphersuites(self.rand_provider());
        assert(Ciphersuite::MLS_128_DHKEMX25519_AES128GCM_SHA256_Ed25519.code() == codes@[0]);
        assert(Ciphersuite::MLS_128_DHKEMX25519_CHACHA20POLY1305_SHA256_Ed25519.code() == codes@[1]);
        assert(Ciphersuite::MLS_128_DHKEMP256_AES128GCM_SHA256_P256.code() == codes@[2]);
        ciphersuites(&codes)
    }

    /// HKDF-Extract.
    pub fn hkdf_extract(&self, hash_type: HashType, salt: &[u8], ikm: &[u8]) -> (r: Result<
        Vec<u8>,
        CryptoError,
    >)
        ensures
            viewed(r) == Ok::<Seq<u8>, CryptoError>(extracted_prk(hash_type, salt@, ikm@)),
            r matches Ok(prk) ==> prk@.len() == hash_type.size(),
    {
        from_ordinals(primitives::hkdf_extract(self.rand_provider(), hash_type, salt, ikm))
    }

    /// The authentication code of a message under a key.
    pub fn hmac(&self, hash_type: HashType, key: &[u8], message: &[u8]) -> (r: Result<
        Vec<u8>,
        CryptoError,
    >)
        ensures
            viewed(r) == Ok::<Seq<u8>, CryptoError>(hmac_code(hash_type, key@, message@)),
            r matches Ok(code) ==> code@.len() == hash_type.size(),
    {
        from_ordinals(primitives::hmac(self.rand_provider(), hash_type, key, message))
    }

    /// HKDF-Expand.
    pub fn hkdf_expand(&self, hash_type: HashType, prk: &[u8], info: &[u8], okm_len: usize) -> (r:
        Result<Vec<u8>, CryptoError>)
        requires
            hash_type.size() <= prk@.len() ==> okm_len <= isize::MAX,
        ensures
            viewed(r) == if can_expand(hash_type, prk@, okm_len as nat) {
                Ok::<Seq<u8>, CryptoError>(expanded_okm(hash_type, prk@, info@, okm_len as nat))
            } else {
                Err(CryptoError::HkdfOutputLengthInvalid)
            },
            r matches Ok(okm) ==> okm@.len() == okm_len,
    {
        from_ordinals(
            primitives::hkdf_expand(self.rand_provider(), hash_type, prk, info, okm_len),
        )
    }

    /// The digest of some data.
    pub fn hash(&self, hash_type: HashType, data: &[u8]) -> (r: Result<Vec<u8>, CryptoError>)
        ensures
            viewed(r) == Ok::<Seq<u8>, CryptoError>(digest(hash_type, data@)),
            r matches Ok(d) ==> d@.len() == hash_type.size(),
    {
        from_ordinals(primitives::hash(self.rand_provider(), hash_type, data))
    }

    /// Authenticated encryption.
    pub fn aead_encrypt(
        &self,
        alg: AeadType,
        key: &[u8],
        data: &[u8],
        nonce: &[u8],
        aad: &[u8],
    ) -> (r: Result<Vec<u8>, CryptoError>)
        requires
            can_run(alg, key@, nonce@, data@.len() as int),
        ensures
            viewed(r) == aead_sealed(alg, key@, data@, nonce@, aad@),
            r matches Err(error) ==> error == CryptoError::CryptoLibraryError,
            key@.len() != alg.key_size() ==> r is Err,
            key@.len() == alg.key_size() && data@.len() <= SEALED_LEN && aad@.len() <= SEALED_LEN
                ==> r is Ok,
            r matches Ok(ct) ==> ct@.len() == data@.len() + TAG_LEN,
            r matches Ok(ct) ==> aead_opened(alg, key@, ct@, nonce@, aad@) == Ok::<
                Seq<u8>,
                CryptoError,
            >(data@),
    {
        from_ordinals(primitives::aead_encrypt(self.rand_provider(), alg, key, data, nonce, aad))
    }

    /// Authenticated decryption.
    pub fn aead_decrypt(
        &self,
        alg: AeadType,
        key: &[u8],
        ct_tag: &[u8],
        nonce: &[u8],
        aad: &[u8],
    ) -> (r: Result<Vec<u8>, CryptoError>)
        requires
            can_run(alg, key@, nonce@, ct_tag@.len() - TAG_LEN),
        ensures
            viewed(r) == aead_opened(alg, key@, ct_tag@, nonce@, aad@),
            key@.len() != alg.key_size() ==> r == Err::<Vec<u8>, CryptoError>(
                CryptoError::CryptoLibraryError,
            ),
            key@.len() == alg.key_size() ==> (r matches Err(error) ==> error
                == CryptoError::AeadDecryptionError),
            r matches Ok(data) ==> data@.len() + TAG_LEN == ct_tag@.len(),
    {
        from_ordinals(primitives::aead_decrypt(self.rand_provider(), alg, key, ct_tag, nonce, aad))
    }

    /// A fresh signature key pair: the private key, then the public key.
    pub fn signature_key_gen(&self, alg: SignatureScheme) -> (r: Result<
        (Vec<u8>, Vec<u8>),
        CryptoError,
    >)
        ensures
            !can_sign(alg) ==> r == Err::<(Vec<u8>, Vec<u8>), CryptoError>(
                CryptoError::UnsupportedSignatureScheme,
            ),
            can_sign(alg) ==> (r matches Err(error) ==> error
                == CryptoError::InsufficientRandomness),
            r matches Ok(pair) ==> pair.0@.len() == SIGNATURE_KEY_LEN && pair.1@.len()
                == public_key_len(alg),
            r matches Ok(pair) ==> pair.1@ == signature_public_key(alg, pair.0@),
            key_gen_reply(&self.inner(), alg, r),
    {
        from_ordinals(primitives::signature_key_gen(self.rand_provider(), alg))
    }

    /// Whether a signature is one of the data under a public key.
    pub fn verify_signature(
        &self,
        alg: SignatureScheme,
        data: &[u8],
        pk: &[u8],
        signature: &[u8],
    ) -> (r: Result<(), CryptoError>)
        ensures
            r == signature_check(alg, data@, pk@, signature@),
            !can_sign(alg) ==> r == Err::<(), CryptoError>(CryptoError::UnsupportedSignatureScheme),
            can_sign(alg) ==> (r matches Err(error) ==> error == CryptoError::CryptoLibraryError
                || error == CryptoError::InvalidSignature),
            alg == SignatureScheme::ED25519 && (pk@.len() != public_key_len(alg)
                || signature@.len() != ED25519_SIGNATURE_LEN) ==> r == Err::<(), CryptoError>(
                CryptoError::CryptoLibraryError,
            ),
    {
        from_ordinals(
            primitives::verify_signature(self.rand_provider(), alg, data, pk, signature),
        )
    }

    /// The signature of some data with a private key.
    pub fn sign(&self, alg: SignatureScheme, data: &[u8], key: &[u8]) -> (r: Result<
        Vec<u8>,
        CryptoError,
    >)
        requires
            alg == SignatureScheme::ECDSA_SECP256R1_SHA256 ==> key@.len() == SIGNATURE_KEY_LEN,
        ensures
            viewed(r) == signature_of(alg, data@, key@),
            !can_sign(alg) ==> r == Err::<Vec<u8>, CryptoError>(
                CryptoError::UnsupportedSignatureScheme,
            ),
            can_sign(alg) ==> (r matches Err(error) ==> error == CryptoError::CryptoLibraryError),
            alg == SignatureScheme::ED25519 ==> (r is Ok <==> key@.len() == SIGNATURE_KEY_LEN),
            alg == SignatureScheme::ED25519 ==> (r matches Ok(signature) ==> signature@.len()
                == ED25519_SIGNATURE_LEN),
            r matches Ok(signature) ==> verifies(alg, data@, key@, signature@),
    {
        from_ordinals(primitives::sign(self.rand_provider(), alg, data, key))
    }

    /// Sets up an HPKE context for sending to a public key, and exports a secret from
    /// it: the encapsulated key, then the secret.
    pub fn hpke_setup_sender_and_export(
        &self,
        config: HpkeConfig,
        pk_r: &[u8],
        info: &[u8],
        exporter_context: &[u8],
        exporter_length: usize,
    ) -> (r: Result<(Vec<u8>, Vec<u8>), CryptoError>)
        requires
            config.0 != HpkeKemType::XWingKemDraft6,
        ensures
            sender_export_outcome(
                config,
                pk_r@,
                info@,
                exporter_context@,
                exporter_length as nat,
                viewed(r),
            ),
            sender_export_reply(
                &self.inner(),
                config,
                pk_r,
                info,
                exporter_context,
                exporter_length,
                r,
            ),
    {
        from_ordinals(
            rust_crypto::hpke_setup_sender_and_export(
                self.rand_provider(),
                config,
                pk_r,
                info,
                exporter_context,
                exporter_length,
            ),
        )
    }

    /// Sets up an HPKE context for receiving with a raw private key, and exports a
    /// secret from it. A vault path is not looked for, but taken for a raw key.
    pub fn hpke_setup_receiver_and_export(
        &self,
        config: HpkeConfig,
        enc: &[u8],
        sk_r: &[u8],
        info: &[u8],
        exporter_context: &[u8],
        exporter_length: usize,
    ) -> (r: Result<Vec<u8>, CryptoError>)
        requires
            config.0 != HpkeKemType::XWingKemDraft6,
        ensures
            receiver_export_outcome(
                config,
                enc@,
                sk_r@,
                info@,
                exporter_context@,
                exporter_length as nat,
                viewed(r),
            ),
    {
        from_ordinals(
            rust_crypto::hpke_setup_receiver_and_export(
                self.rand_provider(),
                config,
                enc,
                sk_r,
                info,
                exporter_context,
                exporter_length,
            ),
        )
    }

    /// Random bytes, as many as the array has.
    pub fn random_array<const N: usize>(&self) -> (r: Result<[u8; N], RandError>)
        ensures
            r matches Err(error) ==> error == RandError::LockPoisoned,
            random_array_reply(&self.inner(), r),
    {
        primitives::random_array(self.rand_provider())
    }

    /// Random bytes, as many as are asked for.
    pub fn random_vec(&self, len: usize) -> (r: Result<Vec<u8>, RandError>)
        requires
            len <= isize::MAX,
        ensures
            r matches Err(error) ==> error == RandError::LockPoisoned,
            r matches Ok(bytes) ==> bytes@.len() == len,
            random_vec_reply(&self.inner(), len, r),
    {
        primitives::random_vec(self.rand_provider(), len)
    }
}

} // verus!
