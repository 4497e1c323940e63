//! The key file: lines of `PRIVATE=<base64>`, `PEER_PUBLIC=<base64>` and
//! `PSK=<base64>`, each value decoding to 32 bytes. Reading the file from
//! disk is the application shell's business; the parsing of its text is
//! verified here, with the base64 alphabet behind a trusted wrapper. Lines
//! with other keys are ignored; of repeated keys the last wins; a line
//! without `=` refuses the whole file.

use vstd::prelude::*;
use vstd::slice::slice_subrange;

use base64::Engine;

use crate::text::{bytes_eq, find_byte, spec_find, spec_split_once, split_once};
use crate::KScopeError;

verus! {

/// What base64 text (standard alphabet, padded) decodes to, or `None` where
/// the text is not valid base64; a function of the text alone.
pub uninterp spec fn base64_decode_of(text: Seq<u8>) -> Option<Seq<u8>>;

/// Relies on `base64::engine::general_purpose::STANDARD` through
/// `base64::Engine::decode`: standard-alphabet padded base64 decoding, which
/// succeeds exactly on valid base64 text.
#[verifier::external_body]
fn b64_decode(data: &[u8]) -> (r: Option<Vec<u8>>)
    ensures
        match r {
            Some(v) => base64_decode_of(data@) == Some(v@),
            None => base64_decode_of(data@) is None,
        },
{
    match base64::engine::general_purpose::STANDARD.decode(data) {
        Ok(v) => Some(v),
        Err(_) => None,
    }
}

/// The three 32-byte secrets a key file holds.
#[derive(Debug, Clone, PartialEq, Eq)]
pub struct LoadedKeys {
    /// This endpoint's static secret.
    pub private: Vec<u8>,
    /// The peer's static public key.
    pub peer_public: Vec<u8>,
    /// The preshared key both ends hold.
    pub psk: Vec<u8>,
}

/// The bytes of the key name `PRIVATE`.
pub open spec fn spec_key_private() -> Seq<u8> {
    seq![0x50u8, 0x52u8, 0x49u8, 0x56u8, 0x41u8, 0x54u8, 0x45u8]
}

/// The bytes of the key name `PEER_PUBLIC`.
pub open spec fn spec_key_peer_public() -> Seq<u8> {
    seq![0x50u8, 0x45u8, 0x45u8, 0x52u8, 0x5fu8, 0x50u8, 0x55u8, 0x42u8, 0x4cu8, 0x49u8, 0x43u8]
}

/// The bytes of the key name `PSK`.
pub open spec fn spec_key_psk() -> Seq<u8> {
    seq![0x50u8, 0x53u8, 0x4bu8]
}

/// A line with a trailing carriage return loses it.
pub open spec fn spec_strip_cr(l: Seq<u8>) -> Seq<u8> {
    if l.len() > 0 && l.last() == 0x0du8 {
        l.drop_last()
    } else {
        l
    }
}

/// The values gathered so far, one slot per key name.
pub type KeyAcc = (Option<Seq<u8>>, Option<Seq<u8>>, Option<Seq<u8>>);

/// One line applied to the gathered values: the text after the first `=`
/// lands in the slot its key names, an unknown key changes nothing, and a
/// line without `=` refuses the file.
pub open spec fn spec_apply_line(l: Seq<u8>, acc: KeyAcc) -> Option<KeyAcc> {
    match spec_split_once(spec_strip_cr(l), 0x3du8) {
        None => None,
        Some((k, v)) => if k == spec_key_private() {
            Some((Some(v), acc.1, acc.2))
        } else if k == spec_key_peer_public() {
            Some((acc.0, Some(v), acc.2))
        } else if k == spec_key_psk() {
            Some((acc.0, acc.1, Some(v)))
        } else {
            Some(acc)
        },
    }
}

/// Every line of the text applied in order, splitting at each newline; text
/// ending in a newline has no empty last line.
pub open spec fn spec_scan(s: Seq<u8>, acc: KeyAcc) -> Option<KeyAcc>
    decreases s.len(),
{
    if s.len() == 0 {
        Some(acc)
    } else {
        let r = spec_find(s, 0x0au8);
        if r < 0 || r >= s.len() {
            spec_apply_line(s, acc)
        } else {
            match spec_apply_line(s.subrange(0, r), acc) {
                None => None,
                Some(acc2) => spec_scan(s.subrange(r + 1, s.len() as int), acc2),
            }
        }
    }
}

/// The three decoded secrets, when all three keys were present and each value
/// is base64 of exactly 32 bytes.
pub open spec fn spec_finish(acc: KeyAcc) -> Option<(Seq<u8>, Seq<u8>, Seq<u8>)> {
    match acc {
        (Some(a), Some(b), Some(c)) => match (
            base64_decode_of(a),
            base64_decode_of(b),
            base64_decode_of(c),
        ) {
            (Some(da), Some(db), Some(dc)) => if da.len() == 32 && db.len() == 32 && dc.len()
                == 32 {
                Some((da, db, dc))
            } else {
                None
            },
            _ => None,
        },
        _ => None,
    }
}

/// What a key file's text yields: the three decoded 32-byte secrets, or
/// nothing where a line has no `=`, a key is missing, a value is not base64,
/// or a secret is not 32 bytes.
pub open spec fn spec_parse_key_file(s: Seq<u8>) -> Option<(Seq<u8>, Seq<u8>, Seq<u8>)> {
    match spec_scan(s, (None, None, None)) {
        None => None,
        Some(acc) => spec_finish(acc),
    }
}

/// The view of a gathered value.
pub open spec fn opt_view(v: Option<Vec<u8>>) -> Option<Seq<u8>> {
    match v {
        Some(x) => Some(x@),
        None => None,
    }
}

/// The bytes of the key name `PRIVATE`.
fn key_private() -> (r: Vec<u8>)
    ensures
        r@ == spec_key_private(),
{
    let mut v: Vec<u8> = Vec::new();
    v.push(0x50);
    v.push(0x52);
    v.push(0x49);
    v.push(0x56);
    v.push(0x41);
    v.push(0x54);
    v.push(0x45);
    assert(v@ =~= spec_key_private());
    v
}

/// The bytes of the key name `PEER_PUBLIC`.
fn key_peer_public() -> (r: Vec<u8>)
    ensures
        r@ == spec_key_peer_public(),
{
    let mut v: Vec<u8> = Vec::new();
    v.push(0x50);
    v.push(0x45);
    v.push(0x45);
    v.push(0x52);
    v.push(0x5f);
    v.push(0x50);
    v.push(0x55);
    v.push(0x42);
    v.push(0x4c);
    v.push(0x49);
    v.push(0x43);
    assert(v@ =~= spec_key_peer_public());
    v
}

/// The bytes of the key name `PSK`.
fn key_psk() -> (r: Vec<u8>)
    ensures
        r@ == spec_key_psk(),
{
    let mut v: Vec<u8> = Vec::new();
    v.push(0x50);
    v.push(0x53);
    v.push(0x4b);
    assert(v@ =~= spec_key_psk());
    v
}

/// Applies one line to the gathered values.
fn apply_line(
    line: &[u8],
    acc: (Option<Vec<u8>>, Option<Vec<u8>>, Option<Vec<u8>>),
) -> (r: Option<(Option<Vec<u8>>, Option<Vec<u8>>, Option<Vec<u8>>)>)
    ensures
        match r {
            Some(acc2) => spec_apply_line(line@, (opt_view(acc.0), opt_view(acc.1), opt_view(acc.2)))
                == Some((opt_view(acc2.0), opt_view(acc2.1), opt_view(acc2.2))),
            None => spec_apply_line(line@, (opt_view(acc.0), opt_view(acc.1), opt_view(acc.2)))
                is None,
        },
{
    let n = line.len();
    let stripped: &[u8] = if n > 0 && line[n - 1] == 0x0d {
        slice_subrange(line, 0, n - 1)
    } else {
        line
    };
    assert(stripped@ == spec_strip_cr(line@));
    let (k, v) = match split_once(stripped, 0x3d) {
        None => {
            return None;
        },
        Some(parts) => parts,
    };
    if bytes_eq(k.as_slice(), key_private().as_slice()) {
        Some((Some(v), acc.1, acc.2))
    } else if bytes_eq(k.as_slice(), key_peer_public().as_slice()) {
        Some((acc.0, Some(v), acc.2))
    } else if bytes_eq(k.as_slice(), key_psk().as_slice()) {
        Some((acc.0, acc.1, Some(v)))
    } else {
        Some(acc)
    }
}

/// Parses a key file's text into its three 32-byte secrets. Fails with
/// `ConfigError` exactly where [`spec_parse_key_file`] reads nothing.
pub fn parse_key_file(text: &[u8]) -> (r: Result<LoadedKeys, KScopeError>)
    ensures
        match r {
            Ok(k) => {
                &&& spec_parse_key_file(text@) == Some((k.private@, k.peer_public@, k.psk@))
                &&& k.private@.len() == 32
                &&& k.peer_public@.len() == 32
                &&& k.psk@.len() == 32
            },
            Err(e) => spec_parse_key_file(text@) is None && e == KScopeError::ConfigError,
        },
{
    let n = text.len();
    let mut pos: usize = 0;
    let mut acc: (Option<Vec<u8>>, Option<Vec<u8>>, Option<Vec<u8>>) = (None, None, None);
    proof {
        assert(text@.subrange(0, n as int) =~= text@);
    }
    while pos < n
        invariant
            pos <= n,
            n == text@.len(),
            spec_scan(text@, (None, None, None)) == spec_scan(
                text@.subrange(pos as int, n as int),
                (opt_view(acc.0), opt_view(acc.1), opt_view(acc.2)),
            ),
        decreases n - pos,
    {
        let rest = slice_subrange(text, pos, n);
        let ghost rest_view = text@.subrange(pos as int, n as int);
        match find_byte(rest, 0x0a) {
            None => {
                proof {
                    crate::text::lemma_find(rest_view, 0x0au8);
                }
                acc = match apply_line(rest, acc) {
                    None => {
                        return Err(KScopeError::ConfigError);
                    },
                    Some(acc2) => acc2,
                };
                pos = n;
            },
            Some(i) => {
                proof {
                    crate::text::lemma_find(rest_view, 0x0au8);
                }
                let line = slice_subrange(rest, 0, i);
                acc = match apply_line(line, acc) {
                    None => {
                        return Err(KScopeError::ConfigError);
                    },
                    Some(acc2) => acc2,
                };
                proof {
                    assert(rest_view.subrange(i + 1, rest_view.len() as int) =~= text@.subrange(
                        pos + i + 1,
                        n as int,
                    ));
                }
                pos = pos + i + 1;
            },
        }
    }
    proof {
        assert(text@.subrange(pos as int, n as int).len() == 0);
    }
    let (oa, ob, oc) = acc;
    let (va, vb, vc) = match (oa, ob, oc) {
        (Some(a), Some(b), Some(c)) => (a, b, c),
        _ => {
            return Err(KScopeError::ConfigError);
        },
    };
    let private = match b64_decode(va.as_slice()) {
        None => {
            return Err(KScopeError::ConfigError);
        },
        Some(d) => d,
    };
    let peer_public = match b64_decode(vb.as_slice()) {
        None => {
            return Err(KScopeError::ConfigError);
        },
        Some(d) => d,
    };
    let psk = match b64_decode(vc.as_slice()) {
        None => {
            return Err(KScopeError::ConfigError);
        },
        Some(d) => d,
    };
    if private.len() != 32 || peer_public.len() != 32 || psk.len() != 32 {
        return Err(KScopeError::ConfigError);
    }
    Ok(LoadedKeys { private, peer_public, psk })
}

} // verus!
