//! The handshake engine: a role-parameterized state machine around the Noise
//! IKpsk2 exchange. The initiator writes message 1 and then reads message 2;
//! the responder reads message 1 and then writes message 2. Completion yields
//! a [`SecureTransport`] through the Noise key split; any cryptographic
//! failure is a dead end. The message bytes themselves are opaque Noise
//! material handled by the wrappers in [`crate::noise`]; the engine's phases
//! and transitions are what this module verifies.

use vstd::prelude::*;

use crate::noise::{
    noise_build_initiator, noise_build_responder, noise_raw_split, noise_read_message,
    noise_write_message,
};
use crate::transport::{Role, SecureTransport, SessionKeys};
use crate::KScopeError;

verus! {

/// The phase of a handshake engine.
#[derive(Debug, Clone, Copy, PartialEq, Eq, Structural)]
pub enum HandshakePhase {
    /// Nothing exchanged yet: the initiator owes message 1; the responder
    /// awaits it.
    Init,
    /// Initiator only: message 1 sent, message 2 awaited.
    AwaitingReply,
    /// Responder only: message 1 consumed, message 2 owed.
    AwaitingFinish,
    /// Both messages processed; session keys are extractable, once.
    Complete,
    /// A protocol error happened; the engine must not be reused.
    Failed,
}

/// Whether an engine with this role and phase consumes an inbound message.
pub open spec fn spec_expects_inbound(role: Role, phase: HandshakePhase) -> bool {
    match role {
        Role::Initiator => phase == HandshakePhase::AwaitingReply,
        Role::Responder => phase == HandshakePhase::Init,
    }
}

/// Whether an engine with this role and phase has a message to send.
pub open spec fn spec_has_outbound(role: Role, phase: HandshakePhase) -> bool {
    match role {
        Role::Initiator => phase == HandshakePhase::Init,
        Role::Responder => phase == HandshakePhase::AwaitingFinish,
    }
}

/// The phase after this role sends its pending message.
pub open spec fn spec_after_write(role: Role) -> HandshakePhase {
    match role {
        Role::Initiator => HandshakePhase::AwaitingReply,
        Role::Responder => HandshakePhase::Complete,
    }
}

/// The phase after this role consumes the message it awaited.
pub open spec fn spec_after_read(role: Role) -> HandshakePhase {
    match role {
        Role::Initiator => HandshakePhase::Complete,
        Role::Responder => HandshakePhase::AwaitingFinish,
    }
}

/// The wire length of the one message each role sends: the pattern fixes
/// message 1 at 96 bytes (the ephemeral, the encrypted static, and the tag of
/// an empty payload) and message 2 at 48 (the ephemeral and the tag).
pub open spec fn spec_message_len(role: Role) -> int {
    match role {
        Role::Initiator => 96,
        Role::Responder => 48,
    }
}

/// A handshake engine for one session attempt.
pub struct Handshake {
    session: snow::HandshakeState,
    role: Role,
    phase: HandshakePhase,
}

impl Handshake {
    /// The engine's role.
    pub closed spec fn spec_role(self) -> Role {
        self.role
    }

    /// The engine's phase.
    pub closed spec fn spec_phase(self) -> HandshakePhase {
        self.phase
    }

    /// An initiator engine over this endpoint's static secret, the
    /// responder's static public key, and the preshared key, all 32 bytes;
    /// construction always succeeds on such keys.
    pub fn new_initiator(static_private: &[u8], remote_static: &[u8], psk: &[u8]) -> (r: Result<
        Self,
        KScopeError,
    >)
        requires
            static_private@.len() == 32,
            remote_static@.len() == 32,
            psk@.len() == 32,
        ensures
            match r {
                Ok(h) => h.spec_role() == Role::Initiator && h.spec_phase()
                    == HandshakePhase::Init,
                Err(_) => false,
            },
    {
        match noise_build_initiator(static_private, remote_static, psk) {
            Ok(session) => Ok(
                Handshake { session, role: Role::Initiator, phase: HandshakePhase::Init },
            ),
            Err(e) => Err(e),
        }
    }

    /// A responder engine over this endpoint's static secret and the
    /// preshared key, both 32 bytes; construction always succeeds on such
    /// keys. The initiator's static key arrives inside message 1.
    pub fn new_responder(static_private: &[u8], psk: &[u8]) -> (r: Result<Self, KScopeError>)
        requires
            static_private@.len() == 32,
            psk@.len() == 32,
        ensures
            match r {
                Ok(h) => h.spec_role() == Role::Responder && h.spec_phase()
                    == HandshakePhase::Init,
                Err(_) => false,
            },
    {
        match noise_build_responder(static_private, psk) {
            Ok(session) => Ok(
                Handshake { session, role: Role::Responder, phase: HandshakePhase::Init },
            ),
            Err(e) => Err(e),
        }
    }

    /// Whether both handshake messages have been processed and the session
    /// keys can be extracted.
    pub fn is_complete(&self) -> (r: bool)
        ensures
            r == (self.spec_phase() == HandshakePhase::Complete),
    {
        match self.phase {
            HandshakePhase::Complete => true,
            _ => false,
        }
    }

    /// The engine's phase.
    pub fn phase(&self) -> (r: HandshakePhase)
        ensures
            r == self.spec_phase(),
    {
        self.phase
    }

    /// The next message to send — exactly 96 bytes from the initiator, 48
    /// from the responder — or an empty buffer when this role has no message
    /// pending in the current phase. Writing advances the phase: the
    /// initiator to awaiting the reply, the responder to completion. Fails
    /// with `InvalidState` on a dead engine; a failure inside the Noise
    /// layer, or a message of any other length from it, is fatal to the
    /// engine.
    pub fn next_outbound(&mut self) -> (r: Result<Vec<u8>, KScopeError>)
        ensures
            final(self).spec_role() == old(self).spec_role(),
            match r {
                Ok(msg) => {
                    &&& old(self).spec_phase() != HandshakePhase::Failed
                    &&& if spec_has_outbound(old(self).spec_role(), old(self).spec_phase()) {
                        &&& final(self).spec_phase() == spec_after_write(old(self).spec_role())
                        &&& msg@.len() == spec_message_len(old(self).spec_role())
                    } else {
                        &&& final(self).spec_phase() == old(self).spec_phase()
                        &&& msg@.len() == 0
                    }
                },
                Err(e) => {
                    if old(self).spec_phase() == HandshakePhase::Failed {
                        &&& e == KScopeError::InvalidState
                        &&& final(self).spec_phase() == HandshakePhase::Failed
                    } else {
                        &&& spec_has_outbound(old(self).spec_role(), old(self).spec_phase())
                        &&& final(self).spec_phase() == HandshakePhase::Failed
                    }
                },
            },
    {
        match self.phase {
            HandshakePhase::Failed => {
                return Err(KScopeError::InvalidState);
            },
            _ => {},
        }
        let writes = match (self.role, self.phase) {
            (Role::Initiator, HandshakePhase::Init) => true,
            (Role::Responder, HandshakePhase::AwaitingFinish) => true,
            _ => false,
        };
        if !writes {
            return Ok(Vec::new());
        }
        match noise_write_message(&mut self.session) {
            Ok(msg) => {
                let expected: usize = match self.role {
                    Role::Initiator => 96,
                    Role::Responder => 48,
                };
                if msg.len() != expected {
                    self.phase = HandshakePhase::Failed;
                    return Err(KScopeError::InvalidState);
                }
                self.phase = match self.role {
                    Role::Initiator => HandshakePhase::AwaitingReply,
                    Role::Responder => HandshakePhase::Complete,
                };
                Ok(msg)
            },
            Err(e) => {
                self.phase = HandshakePhase::Failed;
                Err(e)
            },
        }
    }

    /// Consumes one inbound handshake message. Reading advances the phase:
    /// the responder to owing message 2, the initiator to completion. Fails
    /// with `InvalidState`, leaving the engine as it was, when no input is
    /// expected in the current phase; any failure inside the Noise layer —
    /// a bad authenticator, a truncated message — is fatal to the engine.
    pub fn process_inbound(&mut self, input: &[u8]) -> (r: Result<(), KScopeError>)
        ensures
            final(self).spec_role() == old(self).spec_role(),
            match r {
                Ok(()) => {
                    &&& spec_expects_inbound(old(self).spec_role(), old(self).spec_phase())
                    &&& final(self).spec_phase() == spec_after_read(old(self).spec_role())
                },
                Err(e) => {
                    if spec_expects_inbound(old(self).spec_role(), old(self).spec_phase()) {
                        &&& final(self).spec_phase() == HandshakePhase::Failed
                        &&& (e == KScopeError::AuthFailed || e == KScopeError::MalformedFrame
                            || e == KScopeError::InvalidState)
                    } else {
                        &&& e == KScopeError::InvalidState
                        &&& final(self).spec_phase() == old(self).spec_phase()
                    }
                },
            },
    {
        let expects = match (self.role, self.phase) {
            (Role::Initiator, HandshakePhase::AwaitingReply) => true,
            (Role::Responder, HandshakePhase::Init) => true,
            _ => false,
        };
        if !expects {
            return Err(KScopeError::InvalidState);
        }
        match noise_read_message(&mut self.session, input) {
            Ok(()) => {
                self.phase = match self.role {
                    Role::Initiator => HandshakePhase::Complete,
                    Role::Responder => HandshakePhase::AwaitingFinish,
                };
                Ok(())
            },
            Err(e) => {
                self.phase = HandshakePhase::Failed;
                Err(e)
            },
        }
    }

    /// Consumes a completed engine into the transport session: the Noise key
    /// split directed by this engine's role, the send counter at 0, and an
    /// empty replay window. The engine is gone afterwards, so exactly one
    /// transport session exists per completed handshake.
    pub fn into_session(self) -> (r: SecureTransport)
        requires
            self.spec_phase() == HandshakePhase::Complete,
        ensures
            r.wf(),
            r.send_nonce_view() == 0,
            r.emitted_view() =~= Seq::<u64>::empty(),
            r.window_highest() == 0,
            r.window_accepted() =~= Set::<u64>::empty(),
    {
        let mut engine = self;
        let (k1, k2) = noise_raw_split(&mut engine.session);
        let keys = SessionKeys::from_split(engine.role, k1, k2);
        SecureTransport::new(keys)
    }
}

} // verus!
