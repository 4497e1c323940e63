//! KScope: a point-to-point encrypted IP tunnel core.
//!
//! The crate holds the secure-channel pipeline: the wire codec for all frame
//! kinds, the Noise-pattern handshake engine, and the AEAD transport with
//! monotone send nonces and a sliding replay window, together with the helpers
//! that parse key files, CIDR notation and raw IP packets.

use vstd::prelude::*;

pub mod codec;
pub mod config;
pub mod crypto;
pub mod handshake;
pub mod ip;
pub mod keyfile;
pub mod keys;
pub mod network;
pub mod noise;
pub mod pump;
pub mod replay;
pub mod text;
pub mod transport;
pub mod tun;

verus! {

/// Error taxonomy of the tunnel core.
///
/// Wire-originating errors (`MalformedFrame`, `AuthFailed`, `ReplayOld`,
/// `ReplayDuplicate`) are contained by the data plane; `InvalidState` is fatal
/// to a handshake attempt; the rest surface at the edges.
#[derive(Clone, Copy, Debug, PartialEq, Eq, Structural)]
pub enum KScopeError {
    /// A frame failed to decode: truncated, unknown kind, or bad version.
    MalformedFrame,
    /// An AEAD tag did not verify.
    AuthFailed,
    /// A transport nonce fell at or below the replay window's lower edge.
    ReplayOld,
    /// A transport nonce inside the window was already accepted once.
    ReplayDuplicate,
    /// An operation was attempted in a state that does not allow it.
    InvalidState,
    /// The virtual device was torn down.
    DeviceClosed,
    /// The UDP socket was torn down.
    SocketClosed,
    /// A handshake attempt ran out of time.
    Timeout,
    /// Startup configuration could not be understood.
    ConfigError,
}

} // verus!
