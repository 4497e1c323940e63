//! Wire codec: a single outer frame carries every message kind.
//!
//! Frame layout: 1 byte version (0x01), 1 byte kind, 2 bytes payload length
//! (big-endian), 4 bytes session id (big-endian), then the payload. Payload
//! layouts per kind: handshake kinds carry opaque Noise message bytes;
//! `TransportData` carries an 8-byte big-endian nonce then the ciphertext;
//! `KeepAlive` carries an 8-byte timestamp and 16 random bytes; `Error`
//! carries a 2-byte code and a message to the end of the payload.

use vstd::prelude::*;
use vstd::slice::{slice_subrange, slice_to_vec};

use rand::RngCore;

use crate::KScopeError;

verus! {

// ---------------------------------------------------------------------------
// Big-endian views of the protocol's integers
// ---------------------------------------------------------------------------

/// The two big-endian bytes of a 16-bit value.
pub open spec fn spec_u16_be(x: u16) -> Seq<u8> {
    seq![((x >> 8) & 0xff) as u8, (x & 0xff) as u8]
}

/// The 16-bit value read from two big-endian bytes.
pub open spec fn spec_u16_from_be(s: Seq<u8>) -> u16
    recommends
        s.len() == 2,
{
    (((s[0] as u16) << 8) | (s[1] as u16)) as u16
}

/// The four big-endian bytes of a 32-bit value.
pub open spec fn spec_u32_be(x: u32) -> Seq<u8> {
    seq![
        ((x >> 24) & 0xff) as u8,
        ((x >> 16) & 0xff) as u8,
        ((x >> 8) & 0xff) as u8,
        (x & 0xff) as u8,
    ]
}

/// The 32-bit value read from four big-endian bytes.
pub open spec fn spec_u32_from_be(s: Seq<u8>) -> u32
    recommends
        s.len() == 4,
{
    (((s[0] as u32) << 24) | ((s[1] as u32) << 16) | ((s[2] as u32) << 8) | (s[3] as u32)) as u32
}

/// The eight big-endian bytes of a 64-bit value.
pub open spec fn spec_u64_be(x: u64) -> Seq<u8> {
    seq![
        ((x >> 56) & 0xff) as u8,
        ((x >> 48) & 0xff) as u8,
        ((x >> 40) & 0xff) as u8,
        ((x >> 32) & 0xff) as u8,
        ((x >> 24) & 0xff) as u8,
        ((x >> 16) & 0xff) as u8,
        ((x >> 8) & 0xff) as u8,
        (x & 0xff) as u8,
    ]
}

/// The 64-bit value read from eight big-endian bytes.
pub open spec fn spec_u64_from_be(s: Seq<u8>) -> u64
    recommends
        s.len() == 8,
{
    (((s[0] as u64) << 56) | ((s[1] as u64) << 48) | ((s[2] as u64) << 40) | ((s[3] as u64) << 32)
        | ((s[4] as u64) << 24) | ((s[5] as u64) << 16) | ((s[6] as u64) << 8) | (s[7]
        as u64)) as u64
}

/// Reading back the big-endian bytes of a 16-bit value yields the value.
pub proof fn lemma_u16_be_round(x: u16)
    ensures
        spec_u16_from_be(spec_u16_be(x)) == x,
{
    assert((((((x >> 8) & 0xff) as u8) as u16) << 8 | (((x & 0xff) as u8) as u16)) == x)
        by (bit_vector);
}

/// Reading back the big-endian bytes of a 32-bit value yields the value.
pub proof fn lemma_u32_be_round(x: u32)
    ensures
        spec_u32_from_be(spec_u32_be(x)) == x,
{
    assert(((((((x >> 24) & 0xff) as u8) as u32) << 24) | (((((x >> 16) & 0xff) as u8) as u32)
        << 16) | (((((x >> 8) & 0xff) as u8) as u32) << 8) | (((x & 0xff) as u8) as u32)) == x)
        by (bit_vector);
}

/// Reading back the big-endian bytes of a 64-bit value yields the value.
pub proof fn lemma_u64_be_round(x: u64)
    ensures
        spec_u64_from_be(spec_u64_be(x)) == x,
{
    assert(((((((x >> 56) & 0xff) as u8) as u64) << 56) | (((((x >> 48) & 0xff) as u8) as u64)
        << 48) | (((((x >> 40) & 0xff) as u8) as u64) << 40) | (((((x >> 32) & 0xff) as u8) as u64)
        << 32) | (((((x >> 24) & 0xff) as u8) as u64) << 24) | (((((x >> 16) & 0xff) as u8) as u64)
        << 16) | (((((x >> 8) & 0xff) as u8) as u64) << 8) | (((x & 0xff) as u8) as u64)) == x)
        by (bit_vector);
}

/// Appends the two big-endian bytes of `x` to `out`.
pub fn push_u16_be(out: &mut Vec<u8>, x: u16)
    ensures
        final(out)@ == old(out)@ + spec_u16_be(x),
{
    out.push(((x >> 8) & 0xff) as u8);
    out.push((x & 0xff) as u8);
    assert(out@ =~= old(out)@ + spec_u16_be(x));
}

/// Appends the four big-endian bytes of `x` to `out`.
pub fn push_u32_be(out: &mut Vec<u8>, x: u32)
    ensures
        final(out)@ == old(out)@ + spec_u32_be(x),
{
    out.push(((x >> 24) & 0xff) as u8);
    out.push(((x >> 16) & 0xff) as u8);
    out.push(((x >> 8) & 0xff) as u8);
    out.push((x & 0xff) as u8);
    assert(out@ =~= old(out)@ + spec_u32_be(x));
}

/// Appends the eight big-endian bytes of `x` to `out`.
pub fn push_u64_be(out: &mut Vec<u8>, x: u64)
    ensures
        final(out)@ == old(out)@ + spec_u64_be(x),
{
    out.push(((x >> 56) & 0xff) as u8);
    out.push(((x >> 48) & 0xff) as u8);
    out.push(((x >> 40) & 0xff) as u8);
    out.push(((x >> 32) & 0xff) as u8);
    out.push(((x >> 24) & 0xff) as u8);
    out.push(((x >> 16) & 0xff) as u8);
    out.push(((x >> 8) & 0xff) as u8);
    out.push((x & 0xff) as u8);
    assert(out@ =~= old(out)@ + spec_u64_be(x));
}

/// Reads a big-endian 16-bit value at offset `i`.
pub fn read_u16_be(data: &[u8], i: usize) -> (x: u16)
    requires
        i + 2 <= data@.len(),
    ensures
        x == spec_u16_from_be(data@.subrange(i as int, i + 2)),
{
    let x = ((data[i] as u16) << 8) | (data[i + 1] as u16);
    proof {
        let s = data@.subrange(i as int, i + 2);
        assert(s[0] == data@[i as int] && s[1] == data@[i + 1]);
    }
    x
}

/// Reads a big-endian 32-bit value at offset `i`.
pub fn read_u32_be(data: &[u8], i: usize) -> (x: u32)
    requires
        i + 4 <= data@.len(),
    ensures
        x == spec_u32_from_be(data@.subrange(i as int, i + 4)),
{
    let x = ((data[i] as u32) << 24) | ((data[i + 1] as u32) << 16) | ((data[i + 2] as u32) << 8)
        | (data[i + 3] as u32);
    proof {
        let s = data@.subrange(i as int, i + 4);
        assert(s[0] == data@[i as int] && s[1] == data@[i + 1] && s[2] == data@[i + 2] && s[3]
            == data@[i + 3]);
    }
    x
}

/// Reads a big-endian 64-bit value at offset `i`.
pub fn read_u64_be(data: &[u8], i: usize) -> (x: u64)
    requires
        i + 8 <= data@.len(),
    ensures
        x == spec_u64_from_be(data@.subrange(i as int, i + 8)),
{
    let x = ((data[i] as u64) << 56) | ((data[i + 1] as u64) << 48) | ((data[i + 2] as u64) << 40)
        | ((data[i + 3] as u64) << 32) | ((data[i + 4] as u64) << 24) | ((data[i + 5] as u64)
        << 16) | ((data[i + 6] as u64) << 8) | (data[i + 7] as u64);
    proof {
        let s = data@.subrange(i as int, i + 8);
        assert(s[0] == data@[i as int] && s[1] == data@[i + 1] && s[2] == data@[i + 2] && s[3]
            == data@[i + 3] && s[4] == data@[i + 4] && s[5] == data@[i + 5] && s[6] == data@[i + 6]
            && s[7] == data@[i + 7]);
    }
    x
}

// ---------------------------------------------------------------------------
// Packet kinds
// ---------------------------------------------------------------------------

/// The kind tag of an outer frame.
#[derive(Debug, Clone, Copy, PartialEq, Eq, Structural)]
pub enum PacketType {
    HandshakeInit,
    HandshakeResponse,
    TransportData,
    KeepAlive,
    ErrorPacket,
}

/// The wire code of each frame kind.
pub open spec fn spec_type_code(t: PacketType) -> u8 {
    match t {
        PacketType::HandshakeInit => 0x01,
        PacketType::HandshakeResponse => 0x02,
        PacketType::TransportData => 0x03,
        PacketType::KeepAlive => 0x04,
        PacketType::ErrorPacket => 0xff,
    }
}

/// The frame kind a wire code stands for, if any.
pub open spec fn spec_type_of_code(code: u8) -> Option<PacketType> {
    if code == 0x01 {
        Some(PacketType::HandshakeInit)
    } else if code == 0x02 {
        Some(PacketType::HandshakeResponse)
    } else if code == 0x03 {
        Some(PacketType::TransportData)
    } else if code == 0x04 {
        Some(PacketType::KeepAlive)
    } else if code == 0xff {
        Some(PacketType::ErrorPacket)
    } else {
        None
    }
}

impl PacketType {
    /// The wire code of this kind.
    pub fn code(&self) -> (r: u8)
        ensures
            r == spec_type_code(*self),
    {
        match self {
            PacketType::HandshakeInit => 0x01,
            PacketType::HandshakeResponse => 0x02,
            PacketType::TransportData => 0x03,
            PacketType::KeepAlive => 0x04,
            PacketType::ErrorPacket => 0xff,
        }
    }

    /// The kind a wire code stands for; `None` when the code is unknown.
    pub fn from_code(code: u8) -> (r: Option<PacketType>)
        ensures
            r == spec_type_of_code(code),
    {
        if code == 0x01 {
            Some(PacketType::HandshakeInit)
        } else if code == 0x02 {
            Some(PacketType::HandshakeResponse)
        } else if code == 0x03 {
            Some(PacketType::TransportData)
        } else if code == 0x04 {
            Some(PacketType::KeepAlive)
        } else if code == 0xff {
            Some(PacketType::ErrorPacket)
        } else {
            None
        }
    }
}

/// A code names a kind exactly when the kind maps back to the code.
pub proof fn lemma_type_code_round(t: PacketType)
    ensures
        spec_type_of_code(spec_type_code(t)) == Some(t),
{
}

// ---------------------------------------------------------------------------
// The outer frame header
// ---------------------------------------------------------------------------

/// The fixed 8-byte header at the front of every frame.
#[derive(Debug, Clone, Copy, PartialEq, Eq, Structural)]
pub struct PacketHeader {
    /// Protocol version; always 0x01 on the wire.
    pub version: u8,
    /// The kind of the payload that follows.
    pub packet_type: PacketType,
    /// Length of the payload, excluding this header.
    pub data_len: u16,
    /// Opaque routing tag set by the sender.
    pub session_id: u32,
}

/// The eight header bytes of `h`.
pub open spec fn spec_header_bytes(h: PacketHeader) -> Seq<u8> {
    seq![h.version, spec_type_code(h.packet_type)] + spec_u16_be(h.data_len) + spec_u32_be(
        h.session_id,
    )
}

/// The header read from the front of `b`: `None` when `b` is shorter than 8
/// bytes, carries a version other than 0x01, or names an unknown kind.
pub open spec fn spec_header_parse(b: Seq<u8>) -> Option<PacketHeader> {
    if b.len() < 8 {
        None
    } else if b[0] != 1u8 {
        None
    } else {
        match spec_type_of_code(b[1]) {
            None => None,
            Some(t) => Some(
                PacketHeader {
                    version: 1u8,
                    packet_type: t,
                    data_len: spec_u16_from_be(b.subrange(2, 4)),
                    session_id: spec_u32_from_be(b.subrange(4, 8)),
                },
            ),
        }
    }
}

impl PacketHeader {
    /// A header for the given kind, payload length and session id, at the
    /// protocol's only version.
    pub fn new(packet_type: PacketType, data_len: u16, session_id: u32) -> (r: Self)
        ensures
            r == (PacketHeader { version: 1u8, packet_type, data_len, session_id }),
    {
        PacketHeader { version: 1, packet_type, data_len, session_id }
    }

    /// The eight wire bytes of this header.
    pub fn serialize(&self) -> (r: Vec<u8>)
        ensures
            r@ == spec_header_bytes(*self),
            r@.len() == 8,
    {
        let mut out: Vec<u8> = Vec::new();
        out.push(self.version);
        out.push(self.packet_type.code());
        push_u16_be(&mut out, self.data_len);
        push_u32_be(&mut out, self.session_id);
        assert(out@ =~= spec_header_bytes(*self));
        out
    }

    /// Reads a header from the front of `data`. Fails with `MalformedFrame`
    /// exactly when fewer than 8 bytes are given, the version is not 0x01, or
    /// the kind byte is unknown.
    pub fn deserialize(data: &[u8]) -> (r: Result<Self, KScopeError>)
        ensures
            match r {
                Ok(h) => spec_header_parse(data@) == Some(h),
                Err(e) => spec_header_parse(data@) is None && e == KScopeError::MalformedFrame,
            },
    {
        if data.len() < 8 {
            return Err(KScopeError::MalformedFrame);
        }
        if data[0] != 1 {
            return Err(KScopeError::MalformedFrame);
        }
        match PacketType::from_code(data[1]) {
            None => Err(KScopeError::MalformedFrame),
            Some(t) => Ok(
                PacketHeader {
                    version: 1,
                    packet_type: t,
                    data_len: read_u16_be(data, 2),
                    session_id: read_u32_be(data, 4),
                },
            ),
        }
    }
}

// ---------------------------------------------------------------------------
// Payloads, one struct per frame kind
// ---------------------------------------------------------------------------

/// The first handshake message: opaque Noise bytes, initiator to responder.
#[derive(Debug, Clone, PartialEq, Eq)]
pub struct HandshakeInit {
    /// The Noise message produced by the initiator's engine.
    pub message: Vec<u8>,
}

/// The second handshake message: opaque Noise bytes, responder to initiator.
#[derive(Debug, Clone, PartialEq, Eq)]
pub struct HandshakeResponse {
    /// The Noise message produced by the responder's engine.
    pub message: Vec<u8>,
}

/// One encrypted datagram of the steady state.
#[derive(Debug, Clone, PartialEq, Eq)]
pub struct TransportData {
    /// The send counter under which the ciphertext was sealed.
    pub nonce: u64,
    /// AEAD output: the encrypted datagram followed by its 16-byte tag.
    pub ciphertext: Vec<u8>,
}

/// A liveness probe: a timestamp and 16 random bytes.
#[derive(Debug, Clone, PartialEq, Eq)]
pub struct KeepAlive {
    /// Seconds since the Unix epoch at the sender.
    pub timestamp: u64,
    /// Fresh random bytes; always 16 of them on the wire.
    pub random_data: Vec<u8>,
}

/// An error report: a numeric code and a UTF-8 message.
#[derive(Debug, Clone, PartialEq, Eq)]
pub struct ErrorPacket {
    /// The error code.
    pub code: u16,
    /// The UTF-8 bytes of the message.
    pub message: Vec<u8>,
}

impl HandshakeInit {
    /// The payload bytes of this message: the Noise bytes themselves.
    pub fn serialize(&self) -> (r: Vec<u8>)
        ensures
            r@ == self.message@,
    {
        self.message.clone()
    }

    /// Reads a first handshake message from a payload; any length is opaque
    /// Noise material, so this never fails.
    pub fn deserialize(data: &[u8]) -> (r: Result<Self, KScopeError>)
        ensures
            match r {
                Ok(p) => p.message@ == data@,
                Err(_) => false,
            },
    {
        Ok(HandshakeInit { message: slice_to_vec(data) })
    }
}

impl HandshakeResponse {
    /// The payload bytes of this message: the Noise bytes themselves.
    pub fn serialize(&self) -> (r: Vec<u8>)
        ensures
            r@ == self.message@,
    {
        self.message.clone()
    }

    /// Reads a second handshake message from a payload; any length is opaque
    /// Noise material, so this never fails.
    pub fn deserialize(data: &[u8]) -> (r: Result<Self, KScopeError>)
        ensures
            match r {
                Ok(p) => p.message@ == data@,
                Err(_) => false,
            },
    {
        Ok(HandshakeResponse { message: slice_to_vec(data) })
    }
}

impl TransportData {
    /// A transport frame from its two fields.
    pub fn new(nonce: u64, ciphertext: Vec<u8>) -> (r: Self)
        ensures
            r.nonce == nonce,
            r.ciphertext@ == ciphertext@,
    {
        TransportData { nonce, ciphertext }
    }

    /// The payload bytes: the big-endian nonce, then the ciphertext.
    pub fn serialize(&self) -> (r: Vec<u8>)
        ensures
            r@ == spec_u64_be(self.nonce) + self.ciphertext@,
    {
        let mut out: Vec<u8> = Vec::new();
        push_u64_be(&mut out, self.nonce);
        out.extend_from_slice(self.ciphertext.as_slice());
        assert(out@ =~= spec_u64_be(self.nonce) + self.ciphertext@);
        out
    }

    /// Reads a transport payload. Fails with `MalformedFrame` exactly when the
    /// payload has no room for the 8-byte nonce.
    pub fn deserialize(data: &[u8]) -> (r: Result<Self, KScopeError>)
        ensures
            match r {
                Ok(p) => data@.len() >= 8 && p.nonce == spec_u64_from_be(data@.subrange(0, 8))
                    && p.ciphertext@ == data@.subrange(8, data@.len() as int),
                Err(e) => data@.len() < 8 && e == KScopeError::MalformedFrame,
            },
    {
        if data.len() < 8 {
            return Err(KScopeError::MalformedFrame);
        }
        let nonce = read_u64_be(data, 0);
        let ciphertext = slice_to_vec(slice_subrange(data, 8, data.len()));
        Ok(TransportData { nonce, ciphertext })
    }
}

/// Relies on `std::time::SystemTime::now`: the seconds since the Unix epoch,
/// or 0 on a clock that reads before it. A reading of the clock promises
/// nothing.
#[verifier::external_body]
fn unix_time_seconds() -> u64 {
    match std::time::SystemTime::now().duration_since(std::time::UNIX_EPOCH) {
        Ok(d) => d.as_secs(),
        Err(_) => 0,
    }
}

/// Relies on `rand::rngs::OsRng` through `rand_core::RngCore::fill_bytes`:
/// 16 bytes from the operating system's generator; nothing can be promised of
/// their values.
#[verifier::external_body]
fn os_random_16() -> (r: Vec<u8>)
    ensures
        r@.len() == 16,
{
    let mut bytes = [0u8; 16];
    rand::rngs::OsRng.fill_bytes(&mut bytes);
    bytes.to_vec()
}

impl KeepAlive {
    /// A fresh probe: the clock's reading and 16 random bytes.
    pub fn new() -> (r: Self)
        ensures
            r.random_data@.len() == 16,
    {
        KeepAlive { timestamp: unix_time_seconds(), random_data: os_random_16() }
    }

    /// The payload bytes: the big-endian timestamp, then the random bytes.
    pub fn serialize(&self) -> (r: Vec<u8>)
        ensures
            r@ == spec_u64_be(self.timestamp) + self.random_data@,
    {
        let mut out: Vec<u8> = Vec::new();
        push_u64_be(&mut out, self.timestamp);
        out.extend_from_slice(self.random_data.as_slice());
        assert(out@ =~= spec_u64_be(self.timestamp) + self.random_data@);
        out
    }

    /// Reads a keep-alive payload. Fails with `MalformedFrame` exactly when
    /// the payload is not the 24 bytes the kind requires.
    pub fn deserialize(data: &[u8]) -> (r: Result<Self, KScopeError>)
        ensures
            match r {
                Ok(p) => data@.len() == 24 && p.timestamp == spec_u64_from_be(
                    data@.subrange(0, 8),
                ) && p.random_data@ == data@.subrange(8, 24),
                Err(e) => data@.len() != 24 && e == KScopeError::MalformedFrame,
            },
    {
        if data.len() != 24 {
            return Err(KScopeError::MalformedFrame);
        }
        let timestamp = read_u64_be(data, 0);
        let random_data = slice_to_vec(slice_subrange(data, 8, 24));
        Ok(KeepAlive { timestamp, random_data })
    }
}

impl ErrorPacket {
    /// An error report from a code and the message bytes.
    pub fn new(code: u16, message: Vec<u8>) -> (r: Self)
        ensures
            r.code == code,
            r.message@ == message@,
    {
        ErrorPacket { code, message }
    }

    /// The payload bytes: the big-endian code, then the message.
    pub fn serialize(&self) -> (r: Vec<u8>)
        ensures
            r@ == spec_u16_be(self.code) + self.message@,
    {
        let mut out: Vec<u8> = Vec::new();
        push_u16_be(&mut out, self.code);
        out.extend_from_slice(self.message.as_slice());
        assert(out@ =~= spec_u16_be(self.code) + self.message@);
        out
    }

    /// Reads an error payload. Fails with `MalformedFrame` exactly when the
    /// payload has no room for the 2-byte code.
    pub fn deserialize(data: &[u8]) -> (r: Result<Self, KScopeError>)
        ensures
            match r {
                Ok(p) => data@.len() >= 2 && p.code == spec_u16_from_be(data@.subrange(0, 2))
                    && p.message@ == data@.subrange(2, data@.len() as int),
                Err(e) => data@.len() < 2 && e == KScopeError::MalformedFrame,
            },
    {
        if data.len() < 2 {
            return Err(KScopeError::MalformedFrame);
        }
        let code = read_u16_be(data, 0);
        let message = slice_to_vec(slice_subrange(data, 2, data.len()));
        Ok(ErrorPacket { code, message })
    }
}

// ---------------------------------------------------------------------------
// The frame union and its mathematical model
// ---------------------------------------------------------------------------

/// One wire message of any kind.
#[derive(Debug, Clone, PartialEq, Eq)]
pub enum Packet {
    HandshakeInit(HandshakeInit),
    HandshakeResponse(HandshakeResponse),
    TransportData(TransportData),
    KeepAlive(KeepAlive),
    Error(ErrorPacket),
}

/// The mathematical model of a frame: the same five kinds over byte sequences.
#[verifier::ext_equal]
pub enum FrameModel {
    HandshakeInit { message: Seq<u8> },
    HandshakeResponse { message: Seq<u8> },
    TransportData { nonce: u64, ciphertext: Seq<u8> },
    KeepAlive { timestamp: u64, random_data: Seq<u8> },
    Error { code: u16, message: Seq<u8> },
}

impl View for Packet {
    type V = FrameModel;

    open spec fn view(&self) -> FrameModel {
        match self {
            Packet::HandshakeInit(p) => FrameModel::HandshakeInit { message: p.message@ },
            Packet::HandshakeResponse(p) => FrameModel::HandshakeResponse { message: p.message@ },
            Packet::TransportData(p) => FrameModel::TransportData {
                nonce: p.nonce,
                ciphertext: p.ciphertext@,
            },
            Packet::KeepAlive(p) => FrameModel::KeepAlive {
                timestamp: p.timestamp,
                random_data: p.random_data@,
            },
            Packet::Error(p) => FrameModel::Error { code: p.code, message: p.message@ },
        }
    }
}

/// The kind tag of a frame model.
pub open spec fn spec_frame_type(m: FrameModel) -> PacketType {
    match m {
        FrameModel::HandshakeInit { .. } => PacketType::HandshakeInit,
        FrameModel::HandshakeResponse { .. } => PacketType::HandshakeResponse,
        FrameModel::TransportData { .. } => PacketType::TransportData,
        FrameModel::KeepAlive { .. } => PacketType::KeepAlive,
        FrameModel::Error { .. } => PacketType::ErrorPacket,
    }
}

/// The payload bytes of a frame model.
pub open spec fn spec_frame_payload(m: FrameModel) -> Seq<u8> {
    match m {
        FrameModel::HandshakeInit { message } => message,
        FrameModel::HandshakeResponse { message } => message,
        FrameModel::TransportData { nonce, ciphertext } => spec_u64_be(nonce) + ciphertext,
        FrameModel::KeepAlive { timestamp, random_data } => spec_u64_be(timestamp) + random_data,
        FrameModel::Error { code, message } => spec_u16_be(code) + message,
    }
}

/// A frame that can go on the wire: its payload fits the 16-bit length field,
/// and a keep-alive carries exactly 16 random bytes.
pub open spec fn spec_frame_wf(m: FrameModel) -> bool {
    &&& spec_frame_payload(m).len() <= 0xffff
    &&& match m {
        FrameModel::KeepAlive { random_data, .. } => random_data.len() == 16,
        _ => true,
    }
}

/// The full wire encoding of a frame under a session id.
pub open spec fn spec_encode(m: FrameModel, session_id: u32) -> Seq<u8> {
    spec_header_bytes(
        PacketHeader {
            version: 1u8,
            packet_type: spec_frame_type(m),
            data_len: spec_frame_payload(m).len() as u16,
            session_id,
        },
    ) + spec_frame_payload(m)
}

/// The frame and session id read from wire bytes, or `None` where the bytes
/// are truncated, of an unknown kind or version, or the payload is shorter
/// than its kind requires. Bytes beyond the announced payload are ignored.
pub open spec fn spec_decode(b: Seq<u8>) -> Option<(FrameModel, u32)> {
    match spec_header_parse(b) {
        None => None,
        Some(h) => {
            let n = h.data_len as int;
            if b.len() < 8 + n {
                None
            } else {
                let payload = b.subrange(8, 8 + n);
                let sid = h.session_id;
                match h.packet_type {
                    PacketType::HandshakeInit => Some(
                        (FrameModel::HandshakeInit { message: payload }, sid),
                    ),
                    PacketType::HandshakeResponse => Some(
                        (FrameModel::HandshakeResponse { message: payload }, sid),
                    ),
                    PacketType::TransportData => if payload.len() < 8 {
                        None
                    } else {
                        Some(
                            (
                                FrameModel::TransportData {
                                    nonce: spec_u64_from_be(payload.subrange(0, 8)),
                                    ciphertext: payload.subrange(8, n),
                                },
                                sid,
                            ),
                        )
                    },
                    PacketType::KeepAlive => if payload.len() != 24 {
                        None
                    } else {
                        Some(
                            (
                                FrameModel::KeepAlive {
                                    timestamp: spec_u64_from_be(payload.subrange(0, 8)),
                                    random_data: payload.subrange(8, 24),
                                },
                                sid,
                            ),
                        )
                    },
                    PacketType::ErrorPacket => if payload.len() < 2 {
                        None
                    } else {
                        Some(
                            (
                                FrameModel::Error {
                                    code: spec_u16_from_be(payload.subrange(0, 2)),
                                    message: payload.subrange(2, n),
                                },
                                sid,
                            ),
                        )
                    },
                }
            }
        },
    }
}

impl Packet {
    /// A frame that can go on the wire; see [`spec_frame_wf`].
    pub open spec fn wf(self) -> bool {
        spec_frame_wf(self@)
    }

    /// The kind tag of this frame.
    pub fn packet_type(&self) -> (r: PacketType)
        ensures
            r == spec_frame_type(self@),
    {
        match self {
            Packet::HandshakeInit(_) => PacketType::HandshakeInit,
            Packet::HandshakeResponse(_) => PacketType::HandshakeResponse,
            Packet::TransportData(_) => PacketType::TransportData,
            Packet::KeepAlive(_) => PacketType::KeepAlive,
            Packet::Error(_) => PacketType::ErrorPacket,
        }
    }

    /// Encodes this frame under a session id. Never fails for well-formed
    /// frames; the length field is set from the payload.
    pub fn serialize(&self, session_id: u32) -> (r: Vec<u8>)
        requires
            self.wf(),
        ensures
            r@ == spec_encode(self@, session_id),
    {
        let payload = match self {
            Packet::HandshakeInit(p) => p.serialize(),
            Packet::HandshakeResponse(p) => p.serialize(),
            Packet::TransportData(p) => p.serialize(),
            Packet::KeepAlive(p) => p.serialize(),
            Packet::Error(p) => p.serialize(),
        };
        assert(payload@ == spec_frame_payload(self@));
        let header = PacketHeader::new(self.packet_type(), payload.len() as u16, session_id);
        let mut out = header.serialize();
        out.extend_from_slice(payload.as_slice());
        assert(out@ =~= spec_encode(self@, session_id));
        out
    }

    /// Decodes one frame and its session id from wire bytes. Fails with
    /// `MalformedFrame` exactly where [`spec_decode`] reads nothing.
    pub fn deserialize(data: &[u8]) -> (r: Result<(Packet, u32), KScopeError>)
        ensures
            match r {
                Ok((p, sid)) => spec_decode(data@) == Some((p@, sid)) && p.wf(),
                Err(e) => spec_decode(data@) is None && e == KScopeError::MalformedFrame,
            },
    {
        let header = match PacketHeader::deserialize(data) {
            Ok(h) => h,
            Err(e) => {
                return Err(e);
            },
        };
        let n = header.data_len as usize;
        if data.len() < 8 + n {
            return Err(KScopeError::MalformedFrame);
        }
        let payload = slice_subrange(data, 8, 8 + n);
        let packet = match header.packet_type {
            PacketType::HandshakeInit => Packet::HandshakeInit(
                match HandshakeInit::deserialize(payload) {
                    Ok(p) => p,
                    Err(e) => {
                        return Err(e);
                    },
                },
            ),
            PacketType::HandshakeResponse => Packet::HandshakeResponse(
                match HandshakeResponse::deserialize(payload) {
                    Ok(p) => p,
                    Err(e) => {
                        return Err(e);
                    },
                },
            ),
            PacketType::TransportData => Packet::TransportData(
                match TransportData::deserialize(payload) {
                    Ok(p) => p,
                    Err(e) => {
                        return Err(e);
                    },
                },
            ),
            PacketType::KeepAlive => Packet::KeepAlive(
                match KeepAlive::deserialize(payload) {
                    Ok(p) => p,
                    Err(e) => {
                        return Err(e);
                    },
                },
            ),
            PacketType::ErrorPacket => Packet::Error(
                match ErrorPacket::deserialize(payload) {
                    Ok(p) => p,
                    Err(e) => {
                        return Err(e);
                    },
                },
            ),
        };
        proof {
            let m = spec_decode(data@);
            assert(m == Some((packet@, header.session_id))) by {
                assert(packet@ =~= m->Some_0.0);
            }
        }
        Ok((packet, header.session_id))
    }
}

/// Round trip: decoding an encoded well-formed frame yields the frame and the
/// session id it was encoded under, for every frame kind and payload.
pub proof fn lemma_round_trip(m: FrameModel, session_id: u32)
    requires
        spec_frame_wf(m),
    ensures
        spec_decode(spec_encode(m, session_id)) == Some((m, session_id)),
{
    let payload = spec_frame_payload(m);
    let n = payload.len() as u16;
    let b = spec_encode(m, session_id);
    assert(b.len() == 8 + payload.len());
    assert(b[0] == 1u8);
    assert(b[1] == spec_type_code(spec_frame_type(m)));
    lemma_type_code_round(spec_frame_type(m));
    assert(b.subrange(2, 4) =~= spec_u16_be(n));
    assert(b.subrange(4, 8) =~= spec_u32_be(session_id));
    lemma_u16_be_round(n);
    lemma_u32_be_round(session_id);
    let h = spec_header_parse(b)->Some_0;
    assert(h.data_len == n && h.session_id == session_id && h.packet_type == spec_frame_type(m));
    assert(b.subrange(8, 8 + n as int) =~= payload);
    match m {
        FrameModel::HandshakeInit { message } => {
            assert(spec_decode(b)->Some_0.0 =~= m);
        },
        FrameModel::HandshakeResponse { message } => {
            assert(spec_decode(b)->Some_0.0 =~= m);
        },
        FrameModel::TransportData { nonce, ciphertext } => {
            assert(payload.subrange(0, 8) =~= spec_u64_be(nonce));
            assert(payload.subrange(8, payload.len() as int) =~= ciphertext);
            lemma_u64_be_round(nonce);
            assert(spec_decode(b)->Some_0.0 =~= m);
        },
        FrameModel::KeepAlive { timestamp, random_data } => {
            assert(payload.subrange(0, 8) =~= spec_u64_be(timestamp));
            assert(payload.subrange(8, 24) =~= random_data);
            lemma_u64_be_round(timestamp);
            assert(spec_decode(b)->Some_0.0 =~= m);
        },
        FrameModel::Error { code, message } => {
            assert(payload.subrange(0, 2) =~= spec_u16_be(code));
            assert(payload.subrange(2, payload.len() as int) =~= message);
            lemma_u16_be_round(code);
            assert(spec_decode(b)->Some_0.0 =~= m);
        },
    }
}

} // verus!
