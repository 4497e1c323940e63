//! Trusted boundary to the Noise protocol engine of the `snow` crate. The
//! handshake pattern is `Noise_IKpsk2_25519_ChaChaPoly_BLAKE2s`: the initiator
//! knows the responder's static public key beforehand, and a preshared key is
//! mixed in at the second message. Everything the library proves about the
//! handshake rests on the state machine in [`crate::handshake`]; these
//! wrappers only move bytes in and out of `snow`.

use vstd::prelude::*;

use crate::KScopeError;

verus! {

/// The Noise protocol name this tunnel commits to; it is hashed verbatim into
/// the transcript, so both ends must use it exactly.
pub const NOISE_PARAMS: &'static str = "Noise_IKpsk2_25519_ChaChaPoly_BLAKE2s";

#[verifier::external_type_specification]
#[verifier::external_body]
pub struct ExHandshakeState(snow::HandshakeState);

/// Relies on `snow::Builder`: parses the committed pattern string, sets the
/// local static secret, the responder's static public key and the preshared
/// key at position 2, and builds the initiator's handshake state. On 32-byte
/// keys the build cannot fail: the pattern string parses, every prerequisite
/// the pattern demands is set, the default resolver knows all three
/// primitives, and a 32-byte preshared key is the one length the builder
/// accepts.
#[verifier::external_body]
pub(crate) fn noise_build_initiator(
    static_private: &[u8],
    remote_static: &[u8],
    psk: &[u8],
) -> (r: Result<snow::HandshakeState, KScopeError>)
    requires
        static_private@.len() == 32,
        remote_static@.len() == 32,
        psk@.len() == 32,
    ensures
        r is Ok,
{
    let params = match NOISE_PARAMS.parse() {
        Ok(p) => p,
        Err(_) => return Err(KScopeError::ConfigError),
    };
    match snow::Builder::new(params)
        .local_private_key(static_private)
        .remote_public_key(remote_static)
        .psk(2, psk)
        .build_initiator()
    {
        Ok(hs) => Ok(hs),
        Err(_) => Err(KScopeError::ConfigError),
    }
}

/// Relies on `snow::Builder`: as the initiator's build, but for the responder,
/// which learns the initiator's static key from the first message and so sets
/// no remote public key — the pattern asks the responder for none, so this
/// build cannot fail on a 32-byte secret and preshared key either.
#[verifier::external_body]
pub(crate) fn noise_build_responder(static_private: &[u8], psk: &[u8]) -> (r: Result<
    snow::HandshakeState,
    KScopeError,
>)
    requires
        static_private@.len() == 32,
        psk@.len() == 32,
    ensures
        r is Ok,
{
    let params = match NOISE_PARAMS.parse() {
        Ok(p) => p,
        Err(_) => return Err(KScopeError::ConfigError),
    };
    match snow::Builder::new(params)
        .local_private_key(static_private)
        .psk(2, psk)
        .build_responder()
    {
        Ok(hs) => Ok(hs),
        Err(_) => Err(KScopeError::ConfigError),
    }
}

/// Relies on `snow::HandshakeState::write_message` with an empty payload: it
/// writes the next handshake message of the pattern, at most as long as the
/// buffer handed to it.
#[verifier::external_body]
pub(crate) fn noise_write_message(session: &mut snow::HandshakeState) -> (r: Result<
    Vec<u8>,
    KScopeError,
>)
    ensures
        r matches Ok(msg) ==> msg@.len() <= 1024,
        r matches Err(e) ==> e == KScopeError::InvalidState,
{
    let mut buf = vec![0u8; 1024];
    match session.write_message(&[], &mut buf) {
        Ok(n) => {
            buf.truncate(n);
            Ok(buf)
        },
        Err(_) => Err(KScopeError::InvalidState),
    }
}

/// Relies on `snow::HandshakeState::read_message`: it consumes the next
/// handshake message of the pattern. Its failures are told apart by `snow`'s
/// error: a failed decryption or Diffie-Hellman is an authentication failure,
/// bad input is a malformed message, and anything else is a state error.
#[verifier::external_body]
pub(crate) fn noise_read_message(session: &mut snow::HandshakeState, input: &[u8]) -> (r: Result<
    (),
    KScopeError,
>)
    ensures
        r matches Err(e) ==> (e == KScopeError::AuthFailed || e == KScopeError::MalformedFrame
            || e == KScopeError::InvalidState),
{
    let mut buf = vec![0u8; 1024];
    match session.read_message(input, &mut buf) {
        Ok(_) => Ok(()),
        Err(snow::Error::Decrypt) => Err(KScopeError::AuthFailed),
        Err(snow::Error::Dh) => Err(KScopeError::AuthFailed),
        Err(snow::Error::Input) => Err(KScopeError::MalformedFrame),
        Err(_) => Err(KScopeError::InvalidState),
    }
}

/// Relies on `snow::HandshakeState::dangerously_get_raw_split`: the two
/// 32-byte keys of the Noise split, the first belonging to the
/// initiator-to-responder direction.
#[verifier::external_body]
pub(crate) fn noise_raw_split(session: &mut snow::HandshakeState) -> (r: (Vec<u8>, Vec<u8>))
    ensures
        r.0@.len() == 32,
        r.1@.len() == 32,
{
    let (k1, k2) = session.dangerously_get_raw_split();
    (k1.to_vec(), k2.to_vec())
}

} // verus!
