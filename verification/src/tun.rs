//! The virtual layer-3 device's data model: its configuration, the packets it
//! carries, CIDR notation, and the small family header some tunnel drivers
//! put in front of each packet. The device itself — file descriptors, ioctls,
//! interface configuration — lives in the application shell; everything here
//! is plain computation on bytes.

use vstd::prelude::*;
use vstd::slice::{slice_subrange, slice_to_vec};

use crate::codec::{push_u16_be, spec_u16_be, spec_u16_from_be};
use crate::text::{parse_decimal, spec_dec_value, spec_find, spec_is_digits, spec_split_once, split_once};
use crate::KScopeError;

verus! {

/// Configuration of the virtual interface.
#[derive(Debug, Clone, PartialEq, Eq)]
pub struct TunConfig {
    /// Interface name.
    pub name: String,
    /// Interface address in CIDR notation, such as `10.0.0.1/24`.
    pub address: String,
    /// Maximum transmission unit.
    pub mtu: u16,
    /// Whether the interface outlives the process.
    pub persistent: bool,
}

impl Default for TunConfig {
    /// The default interface: `kscope0` at `10.0.0.1/24`, MTU 1420, removed
    /// on close.
    fn default() -> (r: Self)
        ensures
            r.name@ == "kscope0"@,
            r.address@ == "10.0.0.1/24"@,
            r.mtu == 1420,
            !r.persistent,
    {
        TunConfig {
            name: "kscope0".to_owned(),
            address: "10.0.0.1/24".to_owned(),
            mtu: 1420,
            persistent: false,
        }
    }
}

/// One IP packet read from or written to the virtual device.
#[derive(Debug, Clone, PartialEq, Eq)]
pub struct TunPacket {
    /// The raw IP packet, without any link or family framing.
    pub data: Vec<u8>,
    /// The EtherType of the packet: 0x0800 for IPv4, 0x86DD for IPv6.
    pub protocol: u16,
}

impl TunPacket {
    /// A packet from its bytes and EtherType.
    pub fn new(data: Vec<u8>, protocol: u16) -> (r: Self)
        ensures
            r.data@ == data@,
            r.protocol == protocol,
    {
        TunPacket { data, protocol }
    }

    /// Whether the EtherType names IPv4.
    pub fn is_ipv4(&self) -> (r: bool)
        ensures
            r == (self.protocol == 0x0800),
    {
        self.protocol == 0x0800
    }

    /// Whether the EtherType names IPv6.
    pub fn is_ipv6(&self) -> (r: bool)
        ensures
            r == (self.protocol == 0x86dd),
    {
        self.protocol == 0x86dd
    }
}

// ---------------------------------------------------------------------------
// The driver's family header: 2 flag bytes, 2 EtherType bytes, the packet
// ---------------------------------------------------------------------------

/// The device frame of a packet: two zero flag bytes, the EtherType
/// big-endian, then the packet bytes.
pub open spec fn spec_tun_frame(protocol: u16, data: Seq<u8>) -> Seq<u8> {
    seq![0u8, 0u8] + spec_u16_be(protocol) + data
}

/// Frames a packet for the device: zero flags, the EtherType, the bytes.
pub fn build_tun_frame(packet: &TunPacket) -> (r: Vec<u8>)
    ensures
        r@ == spec_tun_frame(packet.protocol, packet.data@),
{
    let mut out: Vec<u8> = Vec::new();
    out.push(0);
    out.push(0);
    push_u16_be(&mut out, packet.protocol);
    out.extend_from_slice(packet.data.as_slice());
    assert(out@ =~= spec_tun_frame(packet.protocol, packet.data@));
    out
}

/// Strips the device's family header from one read. Fails with
/// `MalformedFrame` exactly when fewer than the 4 header bytes arrived.
pub fn parse_tun_frame(buf: &[u8]) -> (r: Result<TunPacket, KScopeError>)
    ensures
        match r {
            Ok(p) => {
                &&& buf@.len() >= 4
                &&& p.protocol == spec_u16_from_be(buf@.subrange(2, 4))
                &&& p.data@ == buf@.subrange(4, buf@.len() as int)
            },
            Err(e) => buf@.len() < 4 && e == KScopeError::MalformedFrame,
        },
{
    let n = buf.len();
    if n < 4 {
        return Err(KScopeError::MalformedFrame);
    }
    let protocol = crate::codec::read_u16_be(buf, 2);
    let data = slice_to_vec(slice_subrange(buf, 4, n));
    Ok(TunPacket { data, protocol })
}

// ---------------------------------------------------------------------------
// CIDR notation
// ---------------------------------------------------------------------------

/// One dotted-quad octet: one to three decimal digits valued at most 255.
pub open spec fn spec_octet(s: Seq<u8>) -> Option<u8> {
    if spec_is_digits(s) && s.len() <= 3 && spec_dec_value(s) <= 255 {
        Some(spec_dec_value(s) as u8)
    } else {
        None
    }
}

/// CIDR notation read as the four address octets and the prefix length:
/// `A.B.C.D/P` with decimal octets at most 255 and a prefix at most 32.
pub open spec fn spec_parse_cidr(s: Seq<u8>) -> Option<(Seq<u8>, u8)> {
    match spec_split_once(s, 0x2f) {  // '/'
        None => None,
        Some((addr, pfx)) => if !(spec_is_digits(pfx) && pfx.len() <= 3 && spec_dec_value(pfx)
            <= 32) {
            None
        } else {
            match spec_split_once(addr, 0x2e) {  // '.'
                None => None,
                Some((a, r1)) => match spec_split_once(r1, 0x2e) {
                    None => None,
                    Some((b, r2)) => match spec_split_once(r2, 0x2e) {
                        None => None,
                        Some((c, d)) => if spec_find(d, 0x2e) != -1 {
                            None
                        } else {
                            match (spec_octet(a), spec_octet(b), spec_octet(c), spec_octet(d)) {
                                (Some(va), Some(vb), Some(vc), Some(vd)) => Some(
                                    (seq![va, vb, vc, vd], spec_dec_value(pfx) as u8),
                                ),
                                _ => None,
                            }
                        },
                    },
                },
            }
        },
    }
}

/// Reads one octet of a dotted quad.
fn parse_octet(data: &[u8]) -> (r: Option<u8>)
    ensures
        r == spec_octet(data@),
{
    match parse_decimal(data) {
        None => None,
        Some(v) => if v <= 255 {
            Some(v as u8)
        } else {
            None
        },
    }
}

/// Parses CIDR notation such as `10.0.0.1/24` into the four address octets
/// and the prefix length. Fails with `ConfigError` exactly where
/// [`spec_parse_cidr`] reads nothing: a missing slash or dot, a malformed
/// number, an octet over 255, or a prefix over 32.
pub fn parse_cidr(cidr: &[u8]) -> (r: Result<(Vec<u8>, u8), KScopeError>)
    ensures
        match r {
            Ok((oct, p)) => spec_parse_cidr(cidr@) == Some((oct@, p)) && oct@.len() == 4,
            Err(e) => spec_parse_cidr(cidr@) is None && e == KScopeError::ConfigError,
        },
{
    let (addr, pfx) = match split_once(cidr, 0x2f) {
        None => {
            return Err(KScopeError::ConfigError);
        },
        Some(parts) => parts,
    };
    let p = match parse_decimal(pfx.as_slice()) {
        None => {
            return Err(KScopeError::ConfigError);
        },
        Some(v) => v,
    };
    if p > 32 {
        return Err(KScopeError::ConfigError);
    }
    let (a, r1) = match split_once(addr.as_slice(), 0x2e) {
        None => {
            return Err(KScopeError::ConfigError);
        },
        Some(parts) => parts,
    };
    let (b, r2) = match split_once(r1.as_slice(), 0x2e) {
        None => {
            return Err(KScopeError::ConfigError);
        },
        Some(parts) => parts,
    };
    let (c, d) = match split_once(r2.as_slice(), 0x2e) {
        None => {
            return Err(KScopeError::ConfigError);
        },
        Some(parts) => parts,
    };
    match crate::text::find_byte(d.as_slice(), 0x2e) {
        Some(_) => {
            return Err(KScopeError::ConfigError);
        },
        None => {},
    }
    let va = match parse_octet(a.as_slice()) {
        None => {
            return Err(KScopeError::ConfigError);
        },
        Some(v) => v,
    };
    let vb = match parse_octet(b.as_slice()) {
        None => {
            return Err(KScopeError::ConfigError);
        },
        Some(v) => v,
    };
    let vc = match parse_octet(c.as_slice()) {
        None => {
            return Err(KScopeError::ConfigError);
        },
        Some(v) => v,
    };
    let vd = match parse_octet(d.as_slice()) {
        None => {
            return Err(KScopeError::ConfigError);
        },
        Some(v) => v,
    };
    let mut oct: Vec<u8> = Vec::new();
    oct.push(va);
    oct.push(vb);
    oct.push(vc);
    oct.push(vd);
    assert(oct@ =~= seq![va, vb, vc, vd]);
    Ok((oct, p as u8))
}

} // verus!
