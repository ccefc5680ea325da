//! Abstraction over the MLS signing key of an identity.
//!
//! [`MlsSigner`] extends [`Signer`] with access to the bytes of the public key: the one
//! thing that an identity needs and a signer alone does not provide.

use crate::types::{viewed, CryptoError, SignatureScheme};
use vstd::prelude::*;

verus! {

/// Why a signer did not sign.
#[derive(Clone, Copy, Debug, PartialEq, Eq, Structural)]
pub enum SignerError {
    CryptoError(CryptoError),
    InvalidSignature,
    SigningError,
}

/// A holder of a private signature key.
///
/// A signer may sign the same payload differently each time, or fail to: the
/// specification functions are relations that say which replies it may give. A signer
/// that does not say otherwise may reply anything.
pub trait Signer {
    /// Whether the signer may give this reply when asked to sign a payload.
    open spec fn signs(&self, payload: Seq<u8>, reply: Result<Seq<u8>, SignerError>) -> bool {
        true
    }

    /// Whether the signer may say that it signs by this scheme.
    open spec fn signs_by(&self, scheme: SignatureScheme) -> bool {
        true
    }

    /// Signs a payload.
    fn sign(&self, payload: &[u8]) -> (reply: Result<Vec<u8>, SignerError>)
        ensures
            self.signs(payload@, viewed(reply)),
    ;

    /// The scheme by which the signer signs.
    fn signature_scheme(&self) -> (scheme: SignatureScheme)
        ensures
            self.signs_by(scheme),
    ;
}

/// An MLS signer that can also expose the bytes of its public key. It signs as a
/// [`Signer`] does, and is one when it is boxed.
pub trait MlsSigner: Send + Sync {
    /// Whether the signer may give this reply when asked to sign a payload.
    open spec fn signs(&self, payload: Seq<u8>, reply: Result<Seq<u8>, SignerError>) -> bool {
        true
    }

    /// Whether the signer may say that it signs by this scheme.
    open spec fn signs_by(&self, scheme: SignatureScheme) -> bool {
        true
    }

    /// Whether the signer may say that these are the bytes of its public key.
    open spec fn has_public_key(&self, key: Seq<u8>) -> bool {
        true
    }

    /// Signs a payload.
    fn sign(&self, payload: &[u8]) -> (reply: Result<Vec<u8>, SignerError>)
        ensures
            self.signs(payload@, viewed(reply)),
    ;

    /// The scheme by which the signer signs.
    fn signature_scheme(&self) -> (scheme: SignatureScheme)
        ensures
            self.signs_by(scheme),
    ;

    /// The bytes of the public key.
    fn public_key(&self) -> (key: &[u8])
        ensures
            self.has_public_key(key@),
    ;
}

/// A boxed signer signs as the signer in the box, so that it can stand where a signer
/// of a known size is asked for.
impl Signer for Box<dyn MlsSigner> {
    open spec fn signs(&self, payload: Seq<u8>, reply: Result<Seq<u8>, SignerError>) -> bool {
        (**self).signs(payload, reply)
    }

    open spec fn signs_by(&self, scheme: SignatureScheme) -> bool {
        (**self).signs_by(scheme)
    }

    fn sign(&self, payload: &[u8]) -> (reply: Result<Vec<u8>, SignerError>) {
        (**self).sign(payload)
    }

    fn signature_scheme(&self) -> (scheme: SignatureScheme) {
        (**self).signature_scheme()
    }
}

/// A boxed signer may give for a payload just the replies that the signer in the box may
/// give for that same payload, and names just the schemes that it may name.
pub proof fn a_boxed_signer_is_the_signer_in_the_box(
    boxed: &Box<dyn MlsSigner>,
    payload: Seq<u8>,
    reply: Result<Seq<u8>, SignerError>,
    scheme: SignatureScheme,
)
    ensures
        Signer::signs(boxed, payload, reply) <==> (**boxed).signs(payload, reply),
        Signer::signs_by(boxed, scheme) <==> (**boxed).signs_by(scheme),
{
}

} // verus!
