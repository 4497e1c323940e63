//! The secure transport of the steady state: one AEAD key per direction, a
//! strictly monotone send counter, and the receive-side replay window. Exactly
//! one transport session exists per completed handshake; see
//! [`crate::handshake`].

use vstd::prelude::*;

use crate::codec::TransportData;
use crate::crypto::{aead_open, aead_seal, spec_nonce_bytes};
use crate::replay::ReplayWindow;
use crate::KScopeError;

verus! {

/// Which side of the handshake this endpoint played.
#[derive(Debug, Clone, Copy, PartialEq, Eq, Structural)]
pub enum Role {
    /// The side that sends the first handshake message.
    Initiator,
    /// The side that answers it.
    Responder,
}

/// The two direction keys of a session, from this endpoint's point of view.
#[derive(Debug, Clone, PartialEq, Eq)]
pub struct SessionKeys {
    /// Key under which this endpoint seals outgoing datagrams.
    pub send: Vec<u8>,
    /// Key under which this endpoint opens incoming datagrams.
    pub recv: Vec<u8>,
}

/// The send key a role takes from the handshake's key split: the first split
/// output belongs to the initiator-to-responder direction.
pub open spec fn spec_send_key_of(role: Role, k1: Seq<u8>, k2: Seq<u8>) -> Seq<u8> {
    match role {
        Role::Initiator => k1,
        Role::Responder => k2,
    }
}

/// The receive key a role takes from the handshake's key split.
pub open spec fn spec_recv_key_of(role: Role, k1: Seq<u8>, k2: Seq<u8>) -> Seq<u8> {
    match role {
        Role::Initiator => k2,
        Role::Responder => k1,
    }
}

impl SessionKeys {
    /// Directs the handshake's key split `(k1, k2)` for a role: the initiator
    /// sends under `k1` and receives under `k2`; the responder the opposite.
    pub fn from_split(role: Role, k1: Vec<u8>, k2: Vec<u8>) -> (r: SessionKeys)
        ensures
            r.send@ == spec_send_key_of(role, k1@, k2@),
            r.recv@ == spec_recv_key_of(role, k1@, k2@),
    {
        match role {
            Role::Initiator => SessionKeys { send: k1, recv: k2 },
            Role::Responder => SessionKeys { send: k2, recv: k1 },
        }
    }
}

/// Handshake agreement, the key-direction half: when both ends direct the same
/// key split, the initiator's send key is the responder's receive key and the
/// initiator's receive key is the responder's send key, whatever the split.
pub proof fn lemma_key_direction_agreement(k1: Seq<u8>, k2: Seq<u8>)
    ensures
        spec_send_key_of(Role::Initiator, k1, k2) == spec_recv_key_of(Role::Responder, k1, k2),
        spec_recv_key_of(Role::Initiator, k1, k2) == spec_send_key_of(Role::Responder, k1, k2),
{
}

/// A live transport session: both direction keys, the send counter, and the
/// replay window of the receive direction.
pub struct SecureTransport {
    send_key: Vec<u8>,
    recv_key: Vec<u8>,
    send_nonce: u64,
    window: ReplayWindow,
    emitted: Ghost<Seq<u64>>,
}

impl SecureTransport {
    /// The 32-byte key of the send direction.
    pub closed spec fn send_key_view(self) -> Seq<u8> {
        self.send_key@
    }

    /// The 32-byte key of the receive direction.
    pub closed spec fn recv_key_view(self) -> Seq<u8> {
        self.recv_key@
    }

    /// The next nonce the send direction will use.
    pub closed spec fn send_nonce_view(self) -> u64 {
        self.send_nonce
    }

    /// Every nonce the send direction has emitted, in order.
    pub closed spec fn emitted_view(self) -> Seq<u64> {
        self.emitted@
    }

    /// The receive direction's highest accepted nonce.
    pub closed spec fn window_highest(self) -> u64 {
        self.window.highest()
    }

    /// Every nonce the receive direction has accepted.
    pub closed spec fn window_accepted(self) -> Set<u64> {
        self.window.accepted_set()
    }

    /// Well-formedness: 32-byte keys, a well-formed window, and a send side
    /// that has emitted exactly the nonces below its counter, in order.
    pub closed spec fn wf(self) -> bool {
        &&& self.send_key@.len() == 32
        &&& self.recv_key@.len() == 32
        &&& self.window.wf()
        &&& self.emitted@.len() == self.send_nonce
        &&& forall|i: int| 0 <= i < self.emitted@.len() ==> self.emitted@[i] == i as u64
    }

    /// A fresh session over the directed keys: the send counter at 0 and an
    /// empty replay window.
    pub fn new(keys: SessionKeys) -> (r: Self)
        requires
            keys.send@.len() == 32,
            keys.recv@.len() == 32,
        ensures
            r.wf(),
            r.send_key_view() == keys.send@,
            r.recv_key_view() == keys.recv@,
            r.send_nonce_view() == 0,
            r.emitted_view() =~= Seq::<u64>::empty(),
            r.window_highest() == 0,
            r.window_accepted() =~= Set::<u64>::empty(),
    {
        SecureTransport {
            send_key: keys.send,
            recv_key: keys.recv,
            send_nonce: 0,
            window: ReplayWindow::new(),
            emitted: Ghost(Seq::empty()),
        }
    }

    /// Seals one datagram under the send key and the current counter, then
    /// advances the counter by one; the emitted nonce trace grows by exactly
    /// the used counter. The counter's last value is never used: at
    /// `u64::MAX` the session refuses to encrypt so a rekey or teardown can
    /// happen instead of a nonce reuse.
    pub fn encrypt(&mut self, plaintext: &[u8]) -> (r: Result<TransportData, KScopeError>)
        requires
            old(self).wf(),
            plaintext@.len() <= 65511,
        ensures
            final(self).wf(),
            final(self).send_key_view() == old(self).send_key_view(),
            final(self).recv_key_view() == old(self).recv_key_view(),
            final(self).window_highest() == old(self).window_highest(),
            final(self).window_accepted() =~= old(self).window_accepted(),
            match r {
                Ok(td) => {
                    &&& old(self).send_nonce_view() < u64::MAX
                    &&& td.nonce == old(self).send_nonce_view()
                    &&& td.ciphertext@ == aead_seal(
                        old(self).send_key_view(),
                        spec_nonce_bytes(td.nonce),
                        plaintext@,
                    )
                    &&& aead_open(
                        old(self).send_key_view(),
                        spec_nonce_bytes(td.nonce),
                        td.ciphertext@,
                    ) == Some(plaintext@)
                    &&& td.ciphertext@.len() == plaintext@.len() + 16
                    &&& final(self).send_nonce_view() == old(self).send_nonce_view() + 1
                    &&& final(self).emitted_view() =~= old(self).emitted_view().push(td.nonce)
                },
                Err(e) => {
                    &&& e == KScopeError::InvalidState
                    &&& old(self).send_nonce_view() == u64::MAX
                    &&& *final(self) == *old(self)
                },
            },
            old(self).send_nonce_view() < u64::MAX ==> r is Ok,
    {
        if self.send_nonce == u64::MAX {
            return Err(KScopeError::InvalidState);
        }
        let n = self.send_nonce;
        let empty: Vec<u8> = Vec::new();
        let ciphertext = match crate::crypto::encrypt(
            self.send_key.as_slice(),
            n,
            plaintext,
            empty.as_slice(),
        ) {
            Ok(c) => c,
            Err(_) => {
                // unreachable: sealing succeeds at every frame-sized plaintext
                return Err(KScopeError::InvalidState);
            },
        };
        self.send_nonce = n + 1;
        proof {
            self.emitted@ = self.emitted@.push(n);
        }
        Ok(TransportData::new(n, ciphertext))
    }

    /// Opens one transport frame. The replay window is consulted first and
    /// updated only after the tag verifies, so a forged or replayed frame
    /// never moves the window.
    ///
    /// Replay rejection: a nonce accepted before is refused, as is any nonce
    /// 1024 or more below the highest accepted one. Tampering: a frame whose
    /// ciphertext does not open under the receive key and its nonce is
    /// refused as `AuthFailed`. On every failure the window is exactly what
    /// it was.
    pub fn decrypt(&mut self, frame: &TransportData) -> (r: Result<Vec<u8>, KScopeError>)
        requires
            old(self).wf(),
        ensures
            final(self).wf(),
            final(self).send_key_view() == old(self).send_key_view(),
            final(self).recv_key_view() == old(self).recv_key_view(),
            final(self).send_nonce_view() == old(self).send_nonce_view(),
            final(self).emitted_view() == old(self).emitted_view(),
            match r {
                Ok(p) => {
                    &&& !old(self).window_accepted().contains(frame.nonce)
                    &&& frame.nonce + 1024 > old(self).window_highest()
                    &&& aead_open(
                        old(self).recv_key_view(),
                        spec_nonce_bytes(frame.nonce),
                        frame.ciphertext@,
                    ) == Some(p@)
                    &&& final(self).window_accepted() =~= old(self).window_accepted().insert(
                        frame.nonce,
                    )
                    &&& final(self).window_highest() == if frame.nonce > old(
                        self,
                    ).window_highest() {
                        frame.nonce
                    } else {
                        old(self).window_highest()
                    }
                },
                Err(e) => {
                    &&& *final(self) == *old(self)
                    &&& match e {
                        KScopeError::ReplayOld => frame.nonce + 1024 <= old(
                            self,
                        ).window_highest(),
                        KScopeError::ReplayDuplicate => old(self).window_accepted().contains(
                            frame.nonce,
                        ),
                        KScopeError::AuthFailed => {
                            &&& !old(self).window_accepted().contains(frame.nonce)
                            &&& frame.nonce + 1024 > old(self).window_highest()
                            &&& aead_open(
                                old(self).recv_key_view(),
                                spec_nonce_bytes(frame.nonce),
                                frame.ciphertext@,
                            ) is None
                        },
                        _ => false,
                    }
                },
            },
            old(self).window_accepted().contains(frame.nonce) ==> r is Err,
            frame.nonce + 1024 <= old(self).window_highest() ==> r matches Err(
                KScopeError::ReplayOld,
            ),
    {
        match self.window.check(frame.nonce) {
            Err(e) => {
                return Err(e);
            },
            Ok(()) => {},
        }
        let empty: Vec<u8> = Vec::new();
        match crate::crypto::decrypt(
            self.recv_key.as_slice(),
            frame.nonce,
            frame.ciphertext.as_slice(),
            empty.as_slice(),
        ) {
            Ok(p) => {
                self.window.record(frame.nonce);
                Ok(p)
            },
            Err(_) => Err(KScopeError::AuthFailed),
        }
    }
}

/// Send monotonicity: a well-formed transport that has performed `n`
/// successful encrypts has emitted exactly the nonce sequence `0, 1, …, n-1`.
pub proof fn lemma_send_monotone(t: SecureTransport)
    requires
        t.wf(),
    ensures
        t.emitted_view().len() == t.send_nonce_view(),
        t.emitted_view() =~= Seq::new(t.send_nonce_view() as nat, |i: int| i as u64),
{
}

} // verus!
