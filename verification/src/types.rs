//! The vocabulary of the crate: errors, algorithm identifiers, keys and ciphertexts.
//!
//! Algorithm identifiers carry the code points under which they are registered,
//! as specification functions: the contracts speak of those.

use vstd::prelude::*;

verus! {

/// What went wrong in a cryptographic operation.
///
/// The variants and their order are those of `openmls_traits::types::CryptoError`,
/// so that an error of that type is known here by its place among them.
#[derive(Clone, Copy, Debug, PartialEq, Eq, Structural)]
pub enum CryptoError {
    CryptoLibraryError,
    AeadDecryptionError,
    HpkeDecryptionError,
    HpkeEncryptionError,
    UnsupportedSignatureScheme,
    KdfLabelTooLarge,
    KdfSerializationError,
    HkdfOutputLengthInvalid,
    InsufficientRandomness,
    InvalidSignature,
    UnsupportedAeadAlgorithm,
    UnsupportedKdf,
    InvalidLength,
    UnsupportedHashAlgorithm,
    SignatureEncodingError,
    SignatureDecodingError,
    SenderSetupError,
    ReceiverSetupError,
    ExporterError,
    UnsupportedCiphersuite,
    TlsSerializationError,
    TooMuchData,
    SigningError,
    InvalidPublicKey,
}

/// How many variants [`CryptoError`] has.
pub const CRYPTO_ERROR_COUNT: u8 = 24;

impl CryptoError {
    /// The place of an error among the variants of its type, counted from zero.
    pub open spec fn ordinal(self) -> u8 {
        match self {
            CryptoError::CryptoLibraryError => 0,
            CryptoError::AeadDecryptionError => 1,
            CryptoError::HpkeDecryptionError => 2,
            CryptoError::HpkeEncryptionError => 3,
            CryptoError::UnsupportedSignatureScheme => 4,
            CryptoError::KdfLabelTooLarge => 5,
            CryptoError::KdfSerializationError => 6,
            CryptoError::HkdfOutputLengthInvalid => 7,
            CryptoError::InsufficientRandomness => 8,
            CryptoError::InvalidSignature => 9,
            CryptoError::UnsupportedAeadAlgorithm => 10,
            CryptoError::UnsupportedKdf => 11,
            CryptoError::InvalidLength => 12,
            CryptoError::UnsupportedHashAlgorithm => 13,
            CryptoError::SignatureEncodingError => 14,
            CryptoError::SignatureDecodingError => 15,
            CryptoError::SenderSetupError => 16,
            CryptoError::ReceiverSetupError => 17,
            CryptoError::ExporterError => 18,
            CryptoError::UnsupportedCiphersuite => 19,
            CryptoError::TlsSerializationError => 20,
            CryptoError::TooMuchData => 21,
            CryptoError::SigningError => 22,
            CryptoError::InvalidPublicKey => 23,
        }
    }

    /// The error at a given place among the variants.
    pub fn from_ordinal(n: u8) -> (error: CryptoError)
        requires
            n < CRYPTO_ERROR_COUNT,
        ensures
            error.ordinal() == n,
    {
        match n {
            0 => CryptoError::CryptoLibraryError,
            1 => CryptoError::AeadDecryptionError,
            2 => CryptoError::HpkeDecryptionError,
            3 => CryptoError::HpkeEncryptionError,
            4 => CryptoError::UnsupportedSignatureScheme,
            5 => CryptoError::KdfLabelTooLarge,
            6 => CryptoError::KdfSerializationError,
            7 => CryptoError::HkdfOutputLengthInvalid,
            8 => CryptoError::InsufficientRandomness,
            9 => CryptoError::InvalidSignature,
            10 => CryptoError::UnsupportedAeadAlgorithm,
            11 => CryptoError::UnsupportedKdf,
            12 => CryptoError::InvalidLength,
            13 => CryptoError::UnsupportedHashAlgorithm,
            14 => CryptoError::SignatureEncodingError,
            15 => CryptoError::SignatureDecodingError,
            16 => CryptoError::SenderSetupError,
            17 => CryptoError::ReceiverSetupError,
            18 => CryptoError::ExporterError,
            19 => CryptoError::UnsupportedCiphersuite,
            20 => CryptoError::TlsSerializationError,
            21 => CryptoError::TooMuchData,
            22 => CryptoError::SigningError,
            _ => CryptoError::InvalidPublicKey,
        }
    }
}

/// No two errors share a place.
pub proof fn error_ordinals_are_distinct(a: CryptoError, b: CryptoError)
    requires
        a.ordinal() == b.ordinal(),
    ensures
        a == b,
{
}

/// A result with the views of what it holds.
pub open spec fn viewed<T: View, E>(r: Result<T, E>) -> Result<T::V, E> {
    match r {
        Ok(value) => Ok(value@),
        Err(error) => Err(error),
    }
}

/// A result with its error given by its place among the errors.
pub open spec fn by_ordinal<T>(r: Result<T, CryptoError>) -> Result<T, u8> {
    match r {
        Ok(value) => Ok(value),
        Err(error) => Err(error.ordinal()),
    }
}

/// Whether a result is a given error, given by its place.
pub open spec fn fails_with<T>(r: Result<T, u8>, error: CryptoError) -> bool {
    r matches Err(n) && n == error.ordinal()
}

/// Turns a result whose error is given by its place into one that holds the error.
pub fn from_ordinals<T: View>(r: Result<T, u8>) -> (out: Result<T, CryptoError>)
    requires
        r matches Err(n) ==> n < CRYPTO_ERROR_COUNT,
    ensures
        by_ordinal(out) == r,
        forall|named: Result<T::V, CryptoError>| #[trigger]
            by_ordinal(named) == viewed(r) ==> viewed(out) == named,
{
    match r {
        Ok(value) => Ok(value),
        Err(n) => Err(CryptoError::from_ordinal(n)),
    }
}

/// The key encapsulation mechanism of an HPKE configuration.
#[derive(Clone, Copy, Debug, PartialEq, Eq, Structural)]
pub enum HpkeKemType {
    /// DH KEM on P-256.
    DhKemP256,
    /// DH KEM on P-384.
    DhKemP384,
    /// DH KEM on P-521.
    DhKemP521,
    /// DH KEM on X25519.
    DhKem25519,
    /// DH KEM on X448.
    DhKem448,
    /// X-Wing, combining ML-KEM and X25519.
    XWingKemDraft6,
}

impl HpkeKemType {
    /// The identifier under which the mechanism is registered for HPKE.
    pub open spec fn code(self) -> u16 {
        match self {
            HpkeKemType::DhKemP256 => 0x0010,
            HpkeKemType::DhKemP384 => 0x0011,
            HpkeKemType::DhKemP521 => 0x0012,
            HpkeKemType::DhKem25519 => 0x0020,
            HpkeKemType::DhKem448 => 0x0021,
            HpkeKemType::XWingKemDraft6 => 0x004D,
        }
    }
}

/// The key derivation function of an HPKE configuration.
#[derive(Clone, Copy, Debug, PartialEq, Eq, Structural)]
pub enum HpkeKdfType {
    /// HKDF with SHA-256.
    HkdfSha256,
    /// HKDF with SHA-384.
    HkdfSha384,
    /// HKDF with SHA-512.
    HkdfSha512,
}

impl HpkeKdfType {
    /// The identifier under which the function is registered for HPKE.
    pub open spec fn code(self) -> u16 {
        match self {
            HpkeKdfType::HkdfSha256 => 0x0001,
            HpkeKdfType::HkdfSha384 => 0x0002,
            HpkeKdfType::HkdfSha512 => 0x0003,
        }
    }

    /// The length of a digest of the function's hash, in bytes.
    pub open spec fn size(self) -> nat {
        match self {
            HpkeKdfType::HkdfSha256 => 32,
            HpkeKdfType::HkdfSha384 => 48,
            HpkeKdfType::HkdfSha512 => 64,
        }
    }
}

/// The authenticated encryption of an HPKE configuration.
#[derive(Clone, Copy, Debug, PartialEq, Eq, Structural)]
pub enum HpkeAeadType {
    /// AES-128 in Galois/counter mode.
    AesGcm128,
    /// AES-256 in Galois/counter mode.
    AesGcm256,
    /// ChaCha20 with Poly1305.
    ChaCha20Poly1305,
    /// No encryption: contexts only export secrets.
    Export,
}

impl HpkeAeadType {
    /// The identifier under which the encryption is registered for HPKE.
    pub open spec fn code(self) -> u16 {
        match self {
            HpkeAeadType::AesGcm128 => 0x0001,
            HpkeAeadType::AesGcm256 => 0x0002,
            HpkeAeadType::ChaCha20Poly1305 => 0x0003,
            HpkeAeadType::Export => 0xFFFF,
        }
    }
}

/// An HPKE configuration: encapsulation, key derivation and encryption.
#[derive(Clone, Copy, Debug, PartialEq, Eq, Structural)]
pub struct HpkeConfig(pub HpkeKemType, pub HpkeKdfType, pub HpkeAeadType);

/// An HPKE ciphertext: the encapsulated key and the encrypted message.
#[derive(Clone, Debug, PartialEq, Eq)]
pub struct HpkeCiphertext {
    pub kem_output: Vec<u8>,
    pub ciphertext: Vec<u8>,
}

impl View for HpkeCiphertext {
    type V = (Seq<u8>, Seq<u8>);

    /// The encapsulated key, then the encrypted message.
    open spec fn view(&self) -> (Seq<u8>, Seq<u8>) {
        (self.kem_output@, self.ciphertext@)
    }
}

/// An HPKE key pair. The private half is either raw key bytes or a vault path.
#[derive(Clone, Debug, PartialEq, Eq)]
pub struct HpkeKeyPair {
    pub private: Vec<u8>,
    pub public: Vec<u8>,
}

impl View for HpkeKeyPair {
    type V = (Seq<u8>, Seq<u8>);

    /// The private half, then the public half.
    open spec fn view(&self) -> (Seq<u8>, Seq<u8>) {
        (self.private@, self.public@)
    }
}

/// What a derived HPKE key pair is for.
#[derive(Clone, Copy, Debug, PartialEq, Eq, Structural)]
pub enum HpkeKeyPurpose {
    /// The init key of a key package, to which a Welcome is encrypted.
    InitKey,
    /// The encryption key of a leaf node.
    EncryptionKey,
    /// A node key derived from a path secret.
    PathSecret,
    /// The external public key of a group.
    ExternalPub,
}

/// A hash function.
#[allow(non_camel_case_types)]
#[derive(Clone, Copy, Debug, PartialEq, Eq, Structural)]
pub enum HashType {
    Sha2_256,
    Sha2_384,
    Sha2_512,
}

impl HashType {
    /// The length of a digest, in bytes.
    pub open spec fn size(self) -> nat {
        match self {
            HashType::Sha2_256 => 32,
            HashType::Sha2_384 => 48,
            HashType::Sha2_512 => 64,
        }
    }
}

/// An authenticated encryption.
#[derive(Clone, Copy, Debug, PartialEq, Eq, Structural)]
pub enum AeadType {
    Aes128Gcm,
    Aes256Gcm,
    ChaCha20Poly1305,
}

impl AeadType {
    /// The length of a key, in bytes.
    pub open spec fn key_size(self) -> nat {
        match self {
            AeadType::Aes128Gcm => 16,
            AeadType::Aes256Gcm => 32,
            AeadType::ChaCha20Poly1305 => 32,
        }
    }
}

/// A signature scheme, under its name in the TLS registry.
#[allow(non_camel_case_types)]
#[derive(Clone, Copy, Debug, PartialEq, Eq, Structural)]
pub enum SignatureScheme {
    ECDSA_SECP256R1_SHA256,
    ECDSA_SECP384R1_SHA384,
    ECDSA_SECP521R1_SHA512,
    ED25519,
    ED448,
}

/// An MLS ciphersuite, under its registered name.
#[allow(non_camel_case_types)]
#[derive(Clone, Copy, Debug, PartialEq, Eq, Structural)]
pub enum Ciphersuite {
    MLS_128_DHKEMX25519_AES128GCM_SHA256_Ed25519,
    MLS_128_DHKEMP256_AES128GCM_SHA256_P256,
    MLS_128_DHKEMX25519_CHACHA20POLY1305_SHA256_Ed25519,
    MLS_256_DHKEMX448_AES256GCM_SHA512_Ed448,
    MLS_256_DHKEMP521_AES256GCM_SHA512_P521,
    MLS_256_DHKEMX448_CHACHA20POLY1305_SHA512_Ed448,
    MLS_256_DHKEMP384_AES256GCM_SHA384_P384,
    MLS_256_XWING_CHACHA20POLY1305_SHA256_Ed25519,
}

impl Ciphersuite {
    /// The code under which the ciphersuite is registered.
    pub open spec fn code(self) -> u16 {
        match self {
            Ciphersuite::MLS_128_DHKEMX25519_AES128GCM_SHA256_Ed25519 => 0x0001,
            Ciphersuite::MLS_128_DHKEMP256_AES128GCM_SHA256_P256 => 0x0002,
            Ciphersuite::MLS_128_DHKEMX25519_CHACHA20POLY1305_SHA256_Ed25519 => 0x0003,
            Ciphersuite::MLS_256_DHKEMX448_AES256GCM_SHA512_Ed448 => 0x0004,
            Ciphersuite::MLS_256_DHKEMP521_AES256GCM_SHA512_P521 => 0x0005,
            Ciphersuite::MLS_256_DHKEMX448_CHACHA20POLY1305_SHA512_Ed448 => 0x0006,
            Ciphersuite::MLS_256_DHKEMP384_AES256GCM_SHA384_P384 => 0x0007,
            Ciphersuite::MLS_256_XWING_CHACHA20POLY1305_SHA256_Ed25519 => 0x004D,
        }
    }

    /// The ciphersuite that is registered under a code, if there is one.
    pub fn from_code(code: u16) -> (suite: Option<Ciphersuite>)
        ensures
            match suite {
                Some(suite) => suite.code() == code,
                None => forall|suite: Ciphersuite| #[trigger] suite.code() != code,
            },
    {
        match code {
            0x0001 => Some(Ciphersuite::MLS_128_DHKEMX25519_AES128GCM_SHA256_Ed25519),
            0x0002 => Some(Ciphersuite::MLS_128_DHKEMP256_AES128GCM_SHA256_P256),
            0x0003 => Some(Ciphersuite::MLS_128_DHKEMX25519_CHACHA20POLY1305_SHA256_Ed25519),
            0x0004 => Some(Ciphersuite::MLS_256_DHKEMX448_AES256GCM_SHA512_Ed448),
            0x0005 => Some(Ciphersuite::MLS_256_DHKEMP521_AES256GCM_SHA512_P521),
            0x0006 => Some(Ciphersuite::MLS_256_DHKEMX448_CHACHA20POLY1305_SHA512_Ed448),
            0x0007 => Some(Ciphersuite::MLS_256_DHKEMP384_AES256GCM_SHA384_P384),
            0x004D => Some(Ciphersuite::MLS_256_XWING_CHACHA20POLY1305_SHA256_Ed25519),
            _ => None,
        }
    }
}

/// Why random bytes could not be had.
#[derive(Clone, Copy, Debug, PartialEq, Eq, Structural)]
pub enum RandError {
    /// A thread panicked while it held the generator.
    LockPoisoned,
    /// The generator failed.
    NotEnoughRandomness,
}

} // verus!
