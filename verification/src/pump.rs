//! The data-plane pump's per-frame work. The two directions of the steady
//! state each reduce to one function here: egress seals a device packet into
//! a wire frame; ingress classifies one datagram, decrypts transport frames,
//! and counts what it drops. The loops around them — sockets, the device,
//! retries — live in the application shell, which only moves bytes.

use vstd::prelude::*;

use crate::codec::{spec_decode, spec_encode, FrameModel, Packet};
use crate::crypto::{aead_open, aead_seal, spec_nonce_bytes};
use crate::transport::SecureTransport;
use crate::KScopeError;

verus! {

/// A counter one below its bound grows by one; at the bound it stays.
pub open spec fn spec_bump(c: u64) -> u64 {
    if c < u64::MAX {
        (c + 1) as u64
    } else {
        c
    }
}

/// Drop counters of the ingress direction. The data plane is silent and
/// defensive: every wire-originating error is contained as a counted drop,
/// never surfaced to the peer.
#[derive(Debug, Clone, Copy, PartialEq, Eq, Structural)]
pub struct DropCounters {
    /// Frames that failed to decode.
    pub malformed: u64,
    /// Transport frames whose tag did not verify.
    pub auth_failed: u64,
    /// Transport frames refused by the replay window.
    pub replay: u64,
    /// Well-formed frames of a kind the steady state does not expect.
    pub unexpected: u64,
}

impl DropCounters {
    /// All counters at zero.
    pub fn new() -> (r: Self)
        ensures
            r == (DropCounters { malformed: 0, auth_failed: 0, replay: 0, unexpected: 0 }),
    {
        DropCounters { malformed: 0, auth_failed: 0, replay: 0, unexpected: 0 }
    }
}

/// Grows a counter by one until it saturates.
fn bump(c: u64) -> (r: u64)
    ensures
        r == spec_bump(c),
{
    if c < u64::MAX {
        c + 1
    } else {
        c
    }
}

/// What the ingress direction does with one datagram.
#[derive(Debug, Clone, PartialEq, Eq)]
pub enum IngressAction {
    /// A decrypted IP packet to write to the device.
    Deliver(Vec<u8>),
    /// The peer proved liveness: a keep-alive frame, or a transport frame
    /// that decrypted to nothing. Nothing goes to the device.
    Alive,
    /// The datagram was contained and counted.
    Dropped,
}

/// Egress: seals one IP packet from the device and frames it for the wire.
/// The emitted bytes are exactly the encoding of a transport frame carrying
/// the current send nonce and the packet sealed under the send key.
pub fn egress_frame(transport: &mut SecureTransport, packet: &[u8], session_id: u32) -> (r: Result<
    Vec<u8>,
    KScopeError,
>)
    requires
        old(transport).wf(),
        packet@.len() <= 65511,
    ensures
        final(transport).wf(),
        final(transport).send_key_view() == old(transport).send_key_view(),
        final(transport).recv_key_view() == old(transport).recv_key_view(),
        final(transport).window_highest() == old(transport).window_highest(),
        final(transport).window_accepted() =~= old(transport).window_accepted(),
        match r {
            Ok(bytes) => {
                &&& old(transport).send_nonce_view() < u64::MAX
                &&& final(transport).send_nonce_view() == old(transport).send_nonce_view() + 1
                &&& bytes@ == spec_encode(
                    FrameModel::TransportData {
                        nonce: old(transport).send_nonce_view(),
                        ciphertext: aead_seal(
                            old(transport).send_key_view(),
                            spec_nonce_bytes(old(transport).send_nonce_view()),
                            packet@,
                        ),
                    },
                    session_id,
                )
            },
            Err(e) => {
                &&& e == KScopeError::InvalidState
                &&& old(transport).send_nonce_view() == u64::MAX
                &&& *final(transport) == *old(transport)
            },
        },
        old(transport).send_nonce_view() < u64::MAX ==> r is Ok,
{
    let td = match transport.encrypt(packet) {
        Ok(td) => td,
        Err(e) => {
            return Err(e);
        },
    };
    let frame = Packet::TransportData(td);
    assert(frame.wf());
    Ok(frame.serialize(session_id))
}

/// Ingress: classifies one datagram from the socket. A malformed datagram, a
/// replayed or tampered transport frame, and any frame kind the steady state
/// does not expect are each contained as a counted drop; a fresh transport
/// frame that opens yields its plaintext for the device, or counts as
/// liveness when the plaintext is empty; a keep-alive counts as liveness.
/// The replay window moves only when a tag verified.
pub fn ingress_frame(
    transport: &mut SecureTransport,
    counters: &mut DropCounters,
    datagram: &[u8],
) -> (r: IngressAction)
    requires
        old(transport).wf(),
    ensures
        final(transport).wf(),
        final(transport).send_key_view() == old(transport).send_key_view(),
        final(transport).recv_key_view() == old(transport).recv_key_view(),
        final(transport).send_nonce_view() == old(transport).send_nonce_view(),
        final(transport).emitted_view() == old(transport).emitted_view(),
        match spec_decode(datagram@) {
            None => {
                &&& r == IngressAction::Dropped
                &&& *final(counters) == (DropCounters {
                    malformed: spec_bump(old(counters).malformed),
                    ..*old(counters)
                })
                &&& *final(transport) == *old(transport)
            },
            Some((m, sid)) => match m {
                FrameModel::TransportData { nonce, ciphertext } => {
                    if old(transport).window_accepted().contains(nonce) || nonce + 1024 <= old(
                        transport,
                    ).window_highest() {
                        &&& r == IngressAction::Dropped
                        &&& *final(counters) == (DropCounters {
                            replay: spec_bump(old(counters).replay),
                            ..*old(counters)
                        })
                        &&& *final(transport) == *old(transport)
                    } else if aead_open(
                        old(transport).recv_key_view(),
                        spec_nonce_bytes(nonce),
                        ciphertext,
                    ) is None {
                        &&& r == IngressAction::Dropped
                        &&& *final(counters) == (DropCounters {
                            auth_failed: spec_bump(old(counters).auth_failed),
                            ..*old(counters)
                        })
                        &&& *final(transport) == *old(transport)
                    } else {
                        &&& match aead_open(
                            old(transport).recv_key_view(),
                            spec_nonce_bytes(nonce),
                            ciphertext,
                        ) {
                            Some(p) => if p.len() == 0 {
                                r == IngressAction::Alive
                            } else {
                                r matches IngressAction::Deliver(v) && v@ == p
                            },
                            None => false,
                        }
                        &&& *final(counters) == *old(counters)
                        &&& final(transport).window_accepted() =~= old(
                            transport,
                        ).window_accepted().insert(nonce)
                        &&& final(transport).window_highest() == if nonce > old(
                            transport,
                        ).window_highest() {
                            nonce
                        } else {
                            old(transport).window_highest()
                        }
                    }
                },
                FrameModel::KeepAlive { .. } => {
                    &&& r == IngressAction::Alive
                    &&& *final(counters) == *old(counters)
                    &&& *final(transport) == *old(transport)
                },
                _ => {
                    &&& r == IngressAction::Dropped
                    &&& *final(counters) == (DropCounters {
                        unexpected: spec_bump(old(counters).unexpected),
                        ..*old(counters)
                    })
                    &&& *final(transport) == *old(transport)
                },
            },
        },
{
    let (packet, _session_id) = match Packet::deserialize(datagram) {
        Ok(p) => p,
        Err(_) => {
            counters.malformed = bump(counters.malformed);
            return IngressAction::Dropped;
        },
    };
    match packet {
        Packet::TransportData(td) => match transport.decrypt(&td) {
            Ok(plaintext) => {
                if plaintext.len() == 0 {
                    IngressAction::Alive
                } else {
                    IngressAction::Deliver(plaintext)
                }
            },
            Err(KScopeError::AuthFailed) => {
                counters.auth_failed = bump(counters.auth_failed);
                IngressAction::Dropped
            },
            Err(_) => {
                counters.replay = bump(counters.replay);
                IngressAction::Dropped
            },
        },
        Packet::KeepAlive(_) => IngressAction::Alive,
        _ => {
            counters.unexpected = bump(counters.unexpected);
            IngressAction::Dropped
        },
    }
}

} // verus!
