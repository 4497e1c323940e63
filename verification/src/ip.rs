//! Readers of raw IP packets: the version nibble, the transport protocol
//! field, and the two addresses, rendered as text. IPv4 addresses come out in
//! dotted decimal; IPv6 addresses in the usual compressed form — shortest
//! lowercase hex groups, the longest run of two or more zero groups (the
//! leftmost on a tie) folded to `::`, and an IPv4-mapped address shown as
//! `::ffff:` before its dotted quad.

use vstd::prelude::*;

use crate::codec::spec_u16_from_be;
use crate::text::{push_u16_hex_short, push_u8_dec, spec_u16_hex_short, spec_u8_dec};

verus! {

/// Whether the bytes start an IPv4 packet: a version nibble of 4.
pub open spec fn spec_is_ipv4(s: Seq<u8>) -> bool {
    s.len() >= 1 && s[0] >> 4 == 4
}

/// Whether the bytes start an IPv6 packet: a version nibble of 6.
pub open spec fn spec_is_ipv6(s: Seq<u8>) -> bool {
    s.len() >= 1 && s[0] >> 4 == 6
}

/// Whether `packet` starts an IPv4 packet.
pub fn is_ipv4(packet: &[u8]) -> (r: bool)
    ensures
        r == spec_is_ipv4(packet@),
{
    packet.len() >= 1 && packet[0] >> 4 == 4
}

/// Whether `packet` starts an IPv6 packet.
pub fn is_ipv6(packet: &[u8]) -> (r: bool)
    ensures
        r == spec_is_ipv6(packet@),
{
    packet.len() >= 1 && packet[0] >> 4 == 6
}

/// The transport protocol of an IP packet: the protocol field of an IPv4
/// header, the next-header field of an IPv6 header; `None` when the bytes are
/// neither or stop short of the field.
pub open spec fn spec_ip_protocol(s: Seq<u8>) -> Option<u8> {
    if spec_is_ipv4(s) && s.len() >= 10 {
        Some(s[9])
    } else if spec_is_ipv6(s) && s.len() >= 7 {
        Some(s[6])
    } else {
        None
    }
}

/// Reads the transport protocol of an IP packet.
pub fn get_ip_protocol(packet: &[u8]) -> (r: Option<u8>)
    ensures
        r == spec_ip_protocol(packet@),
{
    if packet.len() < 1 {
        return None;
    }
    let version = packet[0] >> 4;
    if version == 4 {
        if packet.len() >= 10 {
            Some(packet[9])
        } else {
            None
        }
    } else if version == 6 {
        if packet.len() >= 7 {
            Some(packet[6])
        } else {
            None
        }
    } else {
        None
    }
}

/// Dotted-decimal text of four address octets.
pub open spec fn spec_ipv4_text(s: Seq<u8>) -> Seq<char>
    recommends
        s.len() == 4,
{
    spec_u8_dec(s[0]) + seq!['.'] + spec_u8_dec(s[1]) + seq!['.'] + spec_u8_dec(s[2]) + seq!['.']
        + spec_u8_dec(s[3])
}

/// The eight 16-bit groups of sixteen address bytes.
pub open spec fn spec_groups(s: Seq<u8>) -> Seq<u16>
    recommends
        s.len() == 16,
{
    Seq::new(8, |i: int| spec_u16_from_be(s.subrange(2 * i, 2 * i + 2)))
}

/// The shortest hex texts of the groups, joined with colons.
pub open spec fn spec_join_groups(g: Seq<u16>) -> Seq<char>
    decreases g.len(),
{
    if g.len() == 0 {
        Seq::empty()
    } else if g.len() == 1 {
        spec_u16_hex_short(g[0])
    } else {
        spec_join_groups(g.drop_last()) + seq![':'] + spec_u16_hex_short(g.last())
    }
}

/// The zero-run scan from group `i`, carrying the run in progress and the
/// best so far: the start and length of the longest run of zero groups, the
/// leftmost winning a tie.
pub open spec fn spec_zero_run_from(
    g: Seq<u16>,
    i: int,
    cur_start: int,
    cur_len: int,
    best_start: int,
    best_len: int,
) -> (int, int)
    decreases g.len() - i,
{
    if i < 0 || i >= g.len() {
        (best_start, best_len)
    } else if g[i] == 0 {
        let ns = if cur_len == 0 {
            i
        } else {
            cur_start
        };
        let nl = cur_len + 1;
        if nl > best_len {
            spec_zero_run_from(g, i + 1, ns, nl, ns, nl)
        } else {
            spec_zero_run_from(g, i + 1, ns, nl, best_start, best_len)
        }
    } else {
        spec_zero_run_from(g, i + 1, 0, 0, best_start, best_len)
    }
}

/// The longest run of zero groups, the leftmost on a tie.
pub open spec fn spec_zero_run(g: Seq<u16>) -> (int, int) {
    spec_zero_run_from(g, 0, 0, 0, 0, 0)
}

/// Whether the groups form an IPv4-mapped address: five zero groups, then
/// `ffff`, then the four mapped bytes.
pub open spec fn spec_ipv4_mapped(g: Seq<u16>) -> bool
    recommends
        g.len() == 8,
{
    g[0] == 0 && g[1] == 0 && g[2] == 0 && g[3] == 0 && g[4] == 0 && g[5] == 0xffff
}

/// Compressed text of sixteen address bytes: an IPv4-mapped address as
/// `::ffff:` before its dotted quad; otherwise the shortest hex groups joined
/// with colons, with the longest run of two or more zero groups (the leftmost
/// on a tie) folded to `::`.
pub open spec fn spec_ipv6_text(s: Seq<u8>) -> Seq<char>
    recommends
        s.len() == 16,
{
    let g = spec_groups(s);
    if spec_ipv4_mapped(g) {
        seq![':', ':', 'f', 'f', 'f', 'f', ':'] + spec_ipv4_text(s.subrange(12, 16))
    } else {
        let run = spec_zero_run(g);
        if run.1 > 1 {
            spec_join_groups(g.subrange(0, run.0)) + seq![':', ':'] + spec_join_groups(
                g.subrange(run.0 + run.1, 8),
            )
        } else {
            spec_join_groups(g)
        }
    }
}

/// The source address of an IP packet as text: bytes 12 to 16 of an IPv4
/// header in dotted decimal, bytes 8 to 24 of an IPv6 header in full hex;
/// `None` when the bytes are neither or stop short of the address.
pub open spec fn spec_source_ip(s: Seq<u8>) -> Option<Seq<char>> {
    if spec_is_ipv4(s) && s.len() >= 20 {
        Some(spec_ipv4_text(s.subrange(12, 16)))
    } else if spec_is_ipv6(s) && s.len() >= 40 {
        Some(spec_ipv6_text(s.subrange(8, 24)))
    } else {
        None
    }
}

/// The destination address of an IP packet as text: bytes 16 to 20 of an IPv4
/// header, bytes 24 to 40 of an IPv6 header; `None` as for the source.
pub open spec fn spec_destination_ip(s: Seq<u8>) -> Option<Seq<char>> {
    if spec_is_ipv4(s) && s.len() >= 20 {
        Some(spec_ipv4_text(s.subrange(16, 20)))
    } else if spec_is_ipv6(s) && s.len() >= 40 {
        Some(spec_ipv6_text(s.subrange(24, 40)))
    } else {
        None
    }
}

/// Renders four address octets starting at `at` in dotted decimal.
fn ipv4_text_at(packet: &[u8], at: usize) -> (r: String)
    requires
        at + 4 <= packet@.len(),
    ensures
        r@ == spec_ipv4_text(packet@.subrange(at as int, at + 4)),
{
    let mut out = String::new();
    push_u8_dec(&mut out, packet[at]);
    out.push('.');
    push_u8_dec(&mut out, packet[at + 1]);
    out.push('.');
    push_u8_dec(&mut out, packet[at + 2]);
    out.push('.');
    push_u8_dec(&mut out, packet[at + 3]);
    proof {
        let s = packet@.subrange(at as int, at + 4);
        assert(s[0] == packet@[at as int] && s[1] == packet@[at + 1] && s[2] == packet@[at + 2]
            && s[3] == packet@[at + 3]);
        assert(out@ =~= spec_ipv4_text(s));
    }
    out
}

/// Appends the joined hex texts of the groups in `[start, end)`.
fn push_groups_joined(out: &mut String, groups: &Vec<u16>, start: usize, end: usize)
    requires
        start <= end,
        end <= groups@.len(),
    ensures
        final(out)@ == old(out)@ + spec_join_groups(groups@.subrange(start as int, end as int)),
{
    let mut k = start;
    proof {
        assert(groups@.subrange(start as int, start as int).len() == 0);
    }
    while k < end
        invariant
            start <= k <= end,
            end <= groups@.len(),
            out@ == old(out)@ + spec_join_groups(groups@.subrange(start as int, k as int)),
        decreases end - k,
    {
        if k > start {
            out.push(':');
        }
        push_u16_hex_short(out, groups[k]);
        proof {
            let pre = groups@.subrange(start as int, k as int);
            let cur = groups@.subrange(start as int, k + 1);
            assert(cur.drop_last() =~= pre);
            assert(cur.last() == groups@[k as int]);
        }
        k = k + 1;
    }
}

/// Renders sixteen address bytes starting at `at` in the compressed form.
#[verifier::rlimit(50)]
fn ipv6_text_at(packet: &[u8], at: usize) -> (r: String)
    requires
        at + 16 <= packet@.len(),
    ensures
        r@ == spec_ipv6_text(packet@.subrange(at as int, at + 16)),
{
    let ghost s = packet@.subrange(at as int, at + 16);
    let n = packet.len();
    assert(at + 16 <= n);
    let mut groups: Vec<u16> = Vec::new();
    let mut k: usize = 0;
    while k < 8
        invariant
            k <= 8,
            at + 16 <= n,
            n == packet@.len(),
            groups@.len() == k,
            forall|j: int|
                0 <= j < k ==> groups@[j] == spec_u16_from_be(
                    #[trigger] packet@.subrange(at + 2 * j, at + 2 * j + 2),
                ),
        decreases 8 - k,
    {
        groups.push(crate::codec::read_u16_be(packet, at + 2 * k));
        k = k + 1;
    }
    proof {
        assert(groups@ =~= spec_groups(s)) by {
            assert forall|j: int| 0 <= j < 8 implies groups@[j] == spec_groups(s)[j] by {
                assert(packet@.subrange(at + 2 * j, at + 2 * j + 2) =~= s.subrange(
                    2 * j,
                    2 * j + 2,
                ));
            }
        }
    }
    if groups[0] == 0 && groups[1] == 0 && groups[2] == 0 && groups[3] == 0 && groups[4] == 0
        && groups[5] == 0xffff {
        let mut out = String::new();
        out.push(':');
        out.push(':');
        out.push('f');
        out.push('f');
        out.push('f');
        out.push('f');
        out.push(':');
        push_u8_dec(&mut out, packet[at + 12]);
        out.push('.');
        push_u8_dec(&mut out, packet[at + 13]);
        out.push('.');
        push_u8_dec(&mut out, packet[at + 14]);
        out.push('.');
        push_u8_dec(&mut out, packet[at + 15]);
        proof {
            let q = s.subrange(12, 16);
            assert(q[0] == packet@[at + 12] && q[1] == packet@[at + 13] && q[2] == packet@[at + 14]
                && q[3] == packet@[at + 15]);
            assert(out@ =~= seq![':', ':', 'f', 'f', 'f', 'f', ':'] + spec_ipv4_text(q));
        }
        return out;
    }
    // the longest run of zero groups, scanning exactly as the spec does
    let mut cur_start: usize = 0;
    let mut cur_len: usize = 0;
    let mut best_start: usize = 0;
    let mut best_len: usize = 0;
    let mut i: usize = 0;
    while i < 8
        invariant
            i <= 8,
            groups@.len() == 8,
            cur_len > 0 ==> cur_start + cur_len == i,
            best_len > 0 ==> best_start + best_len <= i,
            cur_start <= 8,
            cur_len <= 8,
            best_start <= 8,
            best_len <= 8,
            spec_zero_run(groups@) == spec_zero_run_from(
                groups@,
                i as int,
                cur_start as int,
                cur_len as int,
                best_start as int,
                best_len as int,
            ),
        decreases 8 - i,
    {
        if groups[i] == 0 {
            if cur_len == 0 {
                cur_start = i;
            }
            cur_len = cur_len + 1;
            if cur_len > best_len {
                best_start = cur_start;
                best_len = cur_len;
            }
        } else {
            cur_start = 0;
            cur_len = 0;
        }
        i = i + 1;
    }
    proof {
        assert(spec_zero_run(groups@) == (best_start as int, best_len as int));
    }
    let mut out = String::new();
    if best_len > 1 {
        push_groups_joined(&mut out, &groups, 0, best_start);
        out.push(':');
        out.push(':');
        push_groups_joined(&mut out, &groups, best_start + best_len, 8);
        proof {
            assert(out@ =~= spec_join_groups(groups@.subrange(0, best_start as int)) + seq![
                ':',
                ':',
            ] + spec_join_groups(groups@.subrange(best_start + best_len, 8)));
        }
    } else {
        push_groups_joined(&mut out, &groups, 0, 8);
        proof {
            assert(groups@.subrange(0, 8) =~= groups@);
        }
    }
    out
}

/// The source address of an IP packet, as text.
pub fn get_source_ip(packet: &[u8]) -> (r: Option<String>)
    ensures
        match r {
            Some(s) => spec_source_ip(packet@) == Some(s@),
            None => spec_source_ip(packet@) is None,
        },
{
    if is_ipv4(packet) && packet.len() >= 20 {
        Some(ipv4_text_at(packet, 12))
    } else if is_ipv6(packet) && packet.len() >= 40 {
        Some(ipv6_text_at(packet, 8))
    } else {
        None
    }
}

/// The destination address of an IP packet, as text.
pub fn get_destination_ip(packet: &[u8]) -> (r: Option<String>)
    ensures
        match r {
            Some(s) => spec_destination_ip(packet@) == Some(s@),
            None => spec_destination_ip(packet@) is None,
        },
{
    if is_ipv4(packet) && packet.len() >= 20 {
        Some(ipv4_text_at(packet, 16))
    } else if is_ipv6(packet) && packet.len() >= 40 {
        Some(ipv6_text_at(packet, 24))
    } else {
        None
    }
}

} // verus!
