//! Static Curve25519 keypairs. Generation draws the secret from the operating
//! system's generator; the public key is a pure function of the secret.

use vstd::prelude::*;

verus! {

/// The Curve25519 public key of a 32-byte secret.
pub uninterp spec fn x25519_public_of(secret: Seq<u8>) -> Seq<u8>;

/// Relies on `rand_core::OsRng` through `x25519_dalek::StaticSecret::random_from_rng`:
/// a fresh 32-byte secret (clamping happens where the secret is used); nothing
/// else can be said of a random value.
#[verifier::external_body]
fn x25519_random_secret() -> (r: Vec<u8>)
    ensures
        r@.len() == 32,
{
    x25519_dalek::StaticSecret::random_from_rng(rand_core::OsRng).to_bytes().to_vec()
}

/// Relies on `x25519_dalek::PublicKey::from`: the Curve25519 public key, a
/// function of the 32-byte secret alone.
#[verifier::external_body]
fn x25519_public(secret: &[u8]) -> (r: Vec<u8>)
    requires
        secret@.len() == 32,
    ensures
        r@ == x25519_public_of(secret@),
        r@.len() == 32,
{
    let mut sk = [0u8; 32];
    sk.copy_from_slice(secret);
    x25519_dalek::PublicKey::from(&x25519_dalek::StaticSecret::from(sk)).as_bytes().to_vec()
}

/// A long-term keypair of one endpoint.
#[derive(Debug, Clone, PartialEq, Eq)]
pub struct KeyPair {
    /// The 32-byte static secret.
    pub private: Vec<u8>,
    /// The 32-byte public key derived from it.
    pub public: Vec<u8>,
}

impl KeyPair {
    /// A keypair that belongs together: the secret is 32 fresh random bytes
    /// and the public key is its Curve25519 public key.
    pub fn generate() -> (r: KeyPair)
        ensures
            r.private@.len() == 32,
            r.public@.len() == 32,
            r.public@ == x25519_public_of(r.private@),
    {
        let private = x25519_random_secret();
        let public = x25519_public(private.as_slice());
        KeyPair { private, public }
    }
}

} // verus!
