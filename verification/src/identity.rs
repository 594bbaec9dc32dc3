//! Long-lived peer identities: an Ed25519 signing key pair whose public half
//! is what a `ClientIntroduction` carries.

use vstd::prelude::*;

use crate::error::Error;
use crate::proto::PUBLIC_KEY_LEN;

verus! {

/// An Ed25519 key pair; opaque to the verified code, which only ever reads
/// the 32 public-key bytes derived from it at construction.
#[verifier::external_type_specification]
#[verifier::external_body]
pub struct ExEd25519KeyPair(ring::signature::Ed25519KeyPair);

/// A handle to the system's secure random number generator; opaque.
#[verifier::external_type_specification]
#[verifier::external_body]
pub struct ExSystemRandom(ring::rand::SystemRandom);

/// A PKCS#8 document holding a freshly generated key pair; opaque, only
/// carried from generation to parsing.
#[verifier::external_type_specification]
#[verifier::external_body]
pub struct ExDocument(ring::pkcs8::Document);

/// Relies on `ring::rand::SystemRandom::new`: a handle to the system RNG.
#[verifier::external_body]
pub(crate) fn system_random() -> ring::rand::SystemRandom {
    ring::rand::SystemRandom::new()
}

/// Relies on `ring::signature::Ed25519KeyPair::generate_pkcs8`: a freshly
/// generated key pair, serialized as a PKCS#8 v2 document; it fails only if
/// the RNG fails.
#[verifier::external_body]
fn generate_pkcs8(rng: &ring::rand::SystemRandom) -> (r: Result<ring::pkcs8::Document, Error>)
    ensures
        r matches Err(e) ==> e == Error::Ed25519KeyPairGenerationError,
{
    ring::signature::Ed25519KeyPair::generate_pkcs8(rng).map_err(
        |_| Error::Ed25519KeyPairGenerationError,
    )
}

/// Relies on `ring::signature::Ed25519KeyPair::from_pkcs8`: parses the PKCS#8
/// v2 document that `generate_pkcs8` produced, checking that its private and
/// public halves are consistent.
#[verifier::external_body]
fn keypair_from_pkcs8(doc: &ring::pkcs8::Document) -> (r: Result<
    ring::signature::Ed25519KeyPair,
    Error,
>)
    ensures
        r matches Err(e) ==> e is Ed25519KeyPairRejected,
{
    ring::signature::Ed25519KeyPair::from_pkcs8(doc.as_ref()).map_err(
        |e| Error::Ed25519KeyPairRejected(e.description_()),
    )
}

/// Relies on `ring::signature::KeyPair::public_key` and `AsRef<[u8]>` on the
/// returned key: an Ed25519 public key is exactly 32 bytes.
#[verifier::external_body]
fn keypair_public_key(kp: &ring::signature::Ed25519KeyPair) -> [u8; PUBLIC_KEY_LEN] {
    let mut out = [0u8; PUBLIC_KEY_LEN];
    out.copy_from_slice(ring::signature::KeyPair::public_key(kp).as_ref());
    out
}

/// Generates a new Ed25519 key pair using the system RNG.
fn generate_keypair() -> (r: Result<ring::signature::Ed25519KeyPair, Error>)
    ensures
        r matches Err(e) ==> (e is Ed25519KeyPairGenerationError || e is Ed25519KeyPairRejected),
{
    let rng = system_random();
    let doc = match generate_pkcs8(&rng) {
        Ok(doc) => doc,
        Err(e) => {
            return Err(e);
        },
    };
    keypair_from_pkcs8(&doc)
}

/// A long-term asymmetric signing key pair identifying a peer. The private
/// half is never exposed; the public half is derived from the key pair once,
/// at construction, and is stable for the identity's lifetime.
pub struct Identity {
    key_pair: ring::signature::Ed25519KeyPair,
    public_key: [u8; PUBLIC_KEY_LEN],
}

impl Identity {
    /// The public half of the identity key.
    pub closed spec fn spec_public_key(&self) -> [u8; PUBLIC_KEY_LEN] {
        self.public_key
    }

    /// Constructs a new `Identity` with a newly generated identity key.
    pub fn new() -> (r: Result<Identity, Error>)
        ensures
            r matches Err(e) ==> (e is Ed25519KeyPairGenerationError
                || e is Ed25519KeyPairRejected),
    {
        let key_pair = match generate_keypair() {
            Ok(kp) => kp,
            Err(e) => {
                return Err(e);
            },
        };
        let public_key = keypair_public_key(&key_pair);
        Ok(Identity { key_pair, public_key })
    }

    /// Returns the public key part of the identity key.
    pub fn public_key(&self) -> (r: &[u8; PUBLIC_KEY_LEN])
        ensures
            *r == self.spec_public_key(),
    {
        &self.public_key
    }
}

} // verus!
