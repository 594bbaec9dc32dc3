//! Ephemeral key-agreement material: a single-use X25519 private key whose
//! derived public key can be offered in a handshake. Consumption is a state
//! transition, so a key can never serve two handshakes.

use vstd::prelude::*;

use crate::error::Error;
use crate::identity::system_random;
use crate::proto::PUBLIC_KEY_LEN;

verus! {

/// An X25519 ephemeral private key; opaque to the verified code, which only
/// hands it out once, on consumption.
#[verifier::external_type_specification]
#[verifier::external_body]
pub struct ExEphemeralPrivateKey(ring::agreement::EphemeralPrivateKey);

/// Relies on `ring::agreement::EphemeralPrivateKey::generate` with the
/// X25519 algorithm: a fresh private scalar; it fails only if the RNG fails.
#[verifier::external_body]
fn generate_x25519(rng: &ring::rand::SystemRandom) -> (r: Result<
    ring::agreement::EphemeralPrivateKey,
    Error,
>)
    ensures
        r matches Err(e) ==> e == Error::PrivateKeyGenerationError,
{
    ring::agreement::EphemeralPrivateKey::generate(&ring::agreement::X25519, rng).map_err(
        |_| Error::PrivateKeyGenerationError,
    )
}

/// Relies on `EphemeralPrivateKey::compute_public_key` and `AsRef<[u8]>` on
/// the returned key: an X25519 public key is exactly 32 bytes.
#[verifier::external_body]
fn x25519_public_key(key: &ring::agreement::EphemeralPrivateKey) -> (r: Result<
    [u8; PUBLIC_KEY_LEN],
    Error,
>)
    ensures
        r matches Err(e) ==> e == Error::CryptoError,
{
    match key.compute_public_key() {
        Ok(pk) => {
            let mut out = [0u8; PUBLIC_KEY_LEN];
            out.copy_from_slice(pk.as_ref());
            Ok(out)
        },
        Err(_) => Err(Error::CryptoError),
    }
}

/// Single-use Diffie-Hellman material for one handshake: the private scalar
/// is held until it is consumed, and the public key derived from it at
/// construction stays readable afterwards.
pub struct KeyAgreement {
    private_key: Option<ring::agreement::EphemeralPrivateKey>,
    public_key: [u8; PUBLIC_KEY_LEN],
}

impl KeyAgreement {
    /// The public key derived from the private scalar at construction.
    pub closed spec fn spec_public_key(&self) -> [u8; PUBLIC_KEY_LEN] {
        self.public_key
    }

    /// Whether the private scalar has already been consumed.
    pub closed spec fn is_consumed(&self) -> bool {
        self.private_key is None
    }

    /// Generates fresh key-agreement material with the system RNG.
    pub fn new() -> (r: Result<KeyAgreement, Error>)
        ensures
            r matches Ok(k) ==> !k.is_consumed(),
            r matches Err(e) ==> (e is PrivateKeyGenerationError || e is CryptoError),
    {
        let rng = system_random();
        let private_key = match generate_x25519(&rng) {
            Ok(k) => k,
            Err(e) => {
                return Err(e);
            },
        };
        let public_key = match x25519_public_key(&private_key) {
            Ok(pk) => pk,
            Err(e) => {
                return Err(e);
            },
        };
        Ok(KeyAgreement { private_key: Some(private_key), public_key })
    }

    /// The derived public key; readable before and after consumption.
    pub fn public_key(&self) -> (r: &[u8; PUBLIC_KEY_LEN])
        ensures
            *r == self.spec_public_key(),
    {
        &self.public_key
    }

    /// Whether the private scalar has already been consumed.
    pub fn consumed(&self) -> (b: bool)
        ensures
            b == self.is_consumed(),
    {
        self.private_key.is_none()
    }

    /// Takes the private scalar out for one key agreement. The first call
    /// yields it; every later call yields nothing, so the material can never
    /// serve two handshakes.
    pub fn consume(&mut self) -> (r: Option<ring::agreement::EphemeralPrivateKey>)
        ensures
            old(self).is_consumed() ==> r is None,
            !old(self).is_consumed() ==> r is Some,
            final(self).is_consumed(),
            final(self).spec_public_key() == old(self).spec_public_key(),
    {
        self.private_key.take()
    }
}

} // verus!
