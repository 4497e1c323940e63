//! Cryptographic primitives behind the handshake and the transport: AEAD
//! encryption with a counter nonce, the hash, and the HKDF used to derive
//! chained keys. The outside calls stand behind trusted wrappers; everything
//! around them — nonce construction, the HKDF chaining — is verified.

use vstd::prelude::*;

use chacha20poly1305::aead::{Aead, KeyInit};
use chacha20poly1305::{ChaCha20Poly1305, Nonce};

use crate::codec::spec_u64_be;

verus! {

/// Errors of the primitive layer.
#[derive(Debug, Clone, Copy, PartialEq, Eq, Structural)]
pub enum CryptoError {
    /// A key had the wrong length.
    InvalidKeyLength { expected: usize, actual: usize },
    /// AEAD encryption could not be performed.
    EncryptionFailed,
    /// AEAD decryption failed: the tag did not verify or the input was short.
    DecryptionFailed,
    /// An authenticator did not verify.
    SignatureFailed,
    /// Key material could not be generated.
    KeyGenerationFailed,
    /// A value could not be put in or read from its wire form.
    Serialization,
    /// Any other failure of the primitive layer.
    Generic,
}

// ---------------------------------------------------------------------------
// Names for what the outside primitives return
// ---------------------------------------------------------------------------

/// The ChaCha20-Poly1305 ciphertext (with its trailing 16-byte tag) of a
/// plaintext under a 32-byte key and a 12-byte nonce, no associated data.
pub uninterp spec fn aead_seal(key: Seq<u8>, nonce: Seq<u8>, plaintext: Seq<u8>) -> Seq<u8>;

/// The ChaCha20-Poly1305 decryption of a ciphertext under a 32-byte key and a
/// 12-byte nonce, no associated data: the plaintext when the tag verifies,
/// `None` otherwise.
pub uninterp spec fn aead_open(key: Seq<u8>, nonce: Seq<u8>, ciphertext: Seq<u8>) -> Option<
    Seq<u8>,
>;

/// The 32-byte BLAKE3 hash of a byte sequence.
pub uninterp spec fn blake3_of(data: Seq<u8>) -> Seq<u8>;

/// The 32-byte keyed BLAKE3 hash of a byte sequence under a 32-byte key.
pub uninterp spec fn blake3_keyed(key: Seq<u8>, data: Seq<u8>) -> Seq<u8>;

// ---------------------------------------------------------------------------
// The 96-bit nonce built from the 64-bit counter
// ---------------------------------------------------------------------------

/// The 96-bit AEAD nonce of a counter: 32 zero bits, then the counter
/// big-endian.
pub open spec fn spec_nonce_bytes(n: u64) -> Seq<u8> {
    seq![0u8, 0u8, 0u8, 0u8] + spec_u64_be(n)
}

/// Builds the 96-bit AEAD nonce of a counter.
pub fn nonce_bytes(n: u64) -> (r: Vec<u8>)
    ensures
        r@ == spec_nonce_bytes(n),
        r@.len() == 12,
{
    let mut out: Vec<u8> = Vec::new();
    out.push(0);
    out.push(0);
    out.push(0);
    out.push(0);
    crate::codec::push_u64_be(&mut out, n);
    assert(out@ =~= spec_nonce_bytes(n));
    out
}

// ---------------------------------------------------------------------------
// Trusted wrappers over the outside primitives
// ---------------------------------------------------------------------------

/// Relies on `chacha20poly1305::ChaCha20Poly1305` through `aead::Aead::encrypt`:
/// deterministic IETF ChaCha20-Poly1305 sealing under a 32-byte key and a
/// 12-byte nonce with empty associated data; the result is the ciphertext with
/// a 16-byte tag appended, and opening it under the same key and nonce yields
/// the plaintext back. Encryption refuses nothing at the message sizes this
/// protocol can carry.
#[verifier::external_body]
fn aead_seal_raw(key: &[u8], nonce: &[u8], plaintext: &[u8]) -> (r: Result<Vec<u8>, CryptoError>)
    requires
        key@.len() == 32,
        nonce@.len() == 12,
    ensures
        match r {
            Ok(c) => {
                &&& c@ == aead_seal(key@, nonce@, plaintext@)
                &&& c@.len() == plaintext@.len() + 16
                &&& aead_open(key@, nonce@, c@) == Some(plaintext@)
            },
            Err(e) => e == CryptoError::EncryptionFailed,
        },
        plaintext@.len() <= 0xffff ==> r is Ok,
{
    let cipher = match ChaCha20Poly1305::new_from_slice(key) {
        Ok(c) => c,
        Err(_) => return Err(CryptoError::EncryptionFailed),
    };
    match cipher.encrypt(Nonce::from_slice(nonce), plaintext) {
        Ok(c) => Ok(c),
        Err(_) => Err(CryptoError::EncryptionFailed),
    }
}

/// Relies on `chacha20poly1305::ChaCha20Poly1305` through `aead::Aead::decrypt`:
/// deterministic IETF ChaCha20-Poly1305 opening under a 32-byte key and a
/// 12-byte nonce with empty associated data; it returns the plaintext exactly
/// when the trailing 16-byte tag verifies.
#[verifier::external_body]
fn aead_open_raw(key: &[u8], nonce: &[u8], ciphertext: &[u8]) -> (r: Result<Vec<u8>, CryptoError>)
    requires
        key@.len() == 32,
        nonce@.len() == 12,
    ensures
        match r {
            Ok(p) => {
                &&& aead_open(key@, nonce@, ciphertext@) == Some(p@)
                &&& p@.len() + 16 == ciphertext@.len()
            },
            Err(e) => {
                &&& aead_open(key@, nonce@, ciphertext@) is None
                &&& e == CryptoError::DecryptionFailed
            },
        },
{
    let cipher = match ChaCha20Poly1305::new_from_slice(key) {
        Ok(c) => c,
        Err(_) => return Err(CryptoError::DecryptionFailed),
    };
    match cipher.decrypt(Nonce::from_slice(nonce), ciphertext) {
        Ok(p) => Ok(p),
        Err(_) => Err(CryptoError::DecryptionFailed),
    }
}

/// Relies on `blake3::hash`: the 32-byte BLAKE3 digest, a function of the
/// input bytes alone.
#[verifier::external_body]
fn blake3_hash_raw(data: &[u8]) -> (r: Vec<u8>)
    ensures
        r@ == blake3_of(data@),
        r@.len() == 32,
{
    blake3::hash(data).as_bytes().to_vec()
}

/// Relies on `blake3::keyed_hash`: the 32-byte keyed BLAKE3 digest under a
/// 32-byte key, a function of the key and input bytes alone.
#[verifier::external_body]
fn blake3_keyed_raw(key: &[u8], data: &[u8]) -> (r: Vec<u8>)
    requires
        key@.len() == 32,
    ensures
        r@ == blake3_keyed(key@, data@),
        r@.len() == 32,
{
    let mut key32 = [0u8; 32];
    key32.copy_from_slice(key);
    blake3::keyed_hash(&key32, data).as_bytes().to_vec()
}

// ---------------------------------------------------------------------------
// Public primitives
// ---------------------------------------------------------------------------

/// Seals a plaintext under a 32-byte key and a counter nonce with empty
/// associated data. Succeeds on every plaintext small enough for a frame.
pub fn encrypt(key: &[u8], nonce: u64, plaintext: &[u8], additional_data: &[u8]) -> (r: Result<
    Vec<u8>,
    CryptoError,
>)
    requires
        key@.len() == 32,
        additional_data@.len() == 0,
    ensures
        match r {
            Ok(c) => {
                &&& c@ == aead_seal(key@, spec_nonce_bytes(nonce), plaintext@)
                &&& c@.len() == plaintext@.len() + 16
                &&& aead_open(key@, spec_nonce_bytes(nonce), c@) == Some(plaintext@)
            },
            Err(e) => e == CryptoError::EncryptionFailed,
        },
        plaintext@.len() <= 0xffff ==> r is Ok,
{
    let n = nonce_bytes(nonce);
    aead_seal_raw(key, n.as_slice(), plaintext)
}

/// Opens a ciphertext sealed under a 32-byte key and a counter nonce with
/// empty associated data. Fails exactly when the tag does not verify.
pub fn decrypt(key: &[u8], nonce: u64, ciphertext: &[u8], additional_data: &[u8]) -> (r: Result<
    Vec<u8>,
    CryptoError,
>)
    requires
        key@.len() == 32,
        additional_data@.len() == 0,
    ensures
        match r {
            Ok(p) => {
                &&& aead_open(key@, spec_nonce_bytes(nonce), ciphertext@) == Some(p@)
                &&& p@.len() + 16 == ciphertext@.len()
            },
            Err(e) => {
                &&& aead_open(key@, spec_nonce_bytes(nonce), ciphertext@) is None
                &&& e == CryptoError::DecryptionFailed
            },
        },
{
    let n = nonce_bytes(nonce);
    aead_open_raw(key, n.as_slice(), ciphertext)
}

/// The 32-byte BLAKE3 hash of `data`.
pub fn blake3_hash(data: &[u8]) -> (r: Vec<u8>)
    ensures
        r@ == blake3_of(data@),
        r@.len() == 32,
{
    blake3_hash_raw(data)
}

// ---------------------------------------------------------------------------
// HKDF over the keyed hash
// ---------------------------------------------------------------------------

/// The `i`th 32-byte HKDF output under a chaining key: the keyed hash of the
/// previous output (absent for the first), the input key material, and the
/// output's index as one byte.
pub open spec fn spec_hkdf_output(ck: Seq<u8>, ikm: Seq<u8>, i: nat) -> Seq<u8>
    decreases i,
{
    if i == 0 {
        blake3_keyed(ck, ikm + seq![0u8])
    } else {
        blake3_keyed(ck, spec_hkdf_output(ck, ikm, (i - 1) as nat) + ikm + seq![i as u8])
    }
}

/// Derives `num_outputs` chained 32-byte keys from a 32-byte chaining key and
/// input key material. The state machine needs at most three.
pub fn hkdf(chaining_key: &[u8], input_key_material: &[u8], num_outputs: usize) -> (r: Vec<Vec<u8>>)
    requires
        chaining_key@.len() == 32,
        num_outputs <= 3,
    ensures
        r@.len() == num_outputs,
        forall|i: int|
            0 <= i < num_outputs ==> #[trigger] r@[i]@ == spec_hkdf_output(
                chaining_key@,
                input_key_material@,
                i as nat,
            ),
        forall|i: int| 0 <= i < num_outputs ==> #[trigger] r@[i]@.len() == 32,
{
    let mut outputs: Vec<Vec<u8>> = Vec::new();
    let mut i: usize = 0;
    while i < num_outputs
        invariant
            i <= num_outputs,
            num_outputs <= 3,
            chaining_key@.len() == 32,
            outputs@.len() == i,
            forall|j: int|
                0 <= j < i ==> #[trigger] outputs@[j]@ == spec_hkdf_output(
                    chaining_key@,
                    input_key_material@,
                    j as nat,
                ),
            forall|j: int| 0 <= j < i ==> #[trigger] outputs@[j]@.len() == 32,
        decreases num_outputs - i,
    {
        let mut data: Vec<u8> = Vec::new();
        if i > 0 {
            data.extend_from_slice(outputs[i - 1].as_slice());
        }
        data.extend_from_slice(input_key_material);
        data.push(i as u8);
        proof {
            if i == 0 {
                assert(data@ =~= input_key_material@ + seq![0u8]);
            } else {
                assert(data@ =~= spec_hkdf_output(chaining_key@, input_key_material@, (i - 1) as nat)
                    + input_key_material@ + seq![i as u8]);
            }
        }
        let out = blake3_keyed_raw(chaining_key, data.as_slice());
        outputs.push(out);
        i = i + 1;
    }
    outputs
}

} // verus!
