//! Small byte-text helpers shared by the parsers: finding a separator,
//! splitting at its first occurrence, decimal digits, and building decimal
//! and hexadecimal text.

use vstd::prelude::*;
use vstd::slice::{slice_subrange, slice_to_vec};

verus! {

/// The index of the first occurrence of `sep` in `s`, or -1 when absent.
pub open spec fn spec_find(s: Seq<u8>, sep: u8) -> int
    decreases s.len(),
{
    if s.len() == 0 {
        -1
    } else if s[0] == sep {
        0
    } else {
        let r = spec_find(s.subrange(1, s.len() as int), sep);
        if r < 0 {
            -1
        } else {
            r + 1
        }
    }
}

/// What [`spec_find`] returns: either -1 and no occurrence, or the position
/// of the first occurrence.
pub proof fn lemma_find(s: Seq<u8>, sep: u8)
    ensures
        spec_find(s, sep) == -1 ==> forall|j: int| 0 <= j < s.len() ==> s[j] != sep,
        spec_find(s, sep) != -1 ==> {
            let r = spec_find(s, sep);
            &&& 0 <= r < s.len()
            &&& s[r] == sep
            &&& forall|j: int| 0 <= j < r ==> s[j] != sep
        },
    decreases s.len(),
{
    if s.len() == 0 {
    } else if s[0] == sep {
    } else {
        let tail = s.subrange(1, s.len() as int);
        lemma_find(tail, sep);
        let rt = spec_find(tail, sep);
        if rt == -1 {
            assert forall|j: int| 0 <= j < s.len() implies s[j] != sep by {
                if j > 0 {
                    assert(tail[j - 1] == s[j]);
                }
            }
        } else {
            assert(s[rt + 1] == tail[rt]);
            assert forall|j: int| 0 <= j < rt + 1 implies s[j] != sep by {
                if j > 0 {
                    assert(tail[j - 1] == s[j]);
                }
            }
        }
    }
}

/// Finds the first occurrence of `sep` in `data`.
pub fn find_byte(data: &[u8], sep: u8) -> (r: Option<usize>)
    ensures
        match r {
            Some(i) => i == spec_find(data@, sep),
            None => spec_find(data@, sep) == -1,
        },
{
    let n = data.len();
    let mut i: usize = 0;
    while i < n
        invariant
            i <= n,
            n == data@.len(),
            forall|j: int| 0 <= j < i ==> data@[j] != sep,
        decreases n - i,
    {
        if data[i] == sep {
            proof {
                lemma_find(data@, sep);
            }
            return Some(i);
        }
        i = i + 1;
    }
    proof {
        lemma_find(data@, sep);
    }
    None
}

/// The text before and after the first occurrence of `sep`, or `None` when
/// `sep` does not occur.
pub open spec fn spec_split_once(s: Seq<u8>, sep: u8) -> Option<(Seq<u8>, Seq<u8>)> {
    let r = spec_find(s, sep);
    if r < 0 || r >= s.len() {
        None
    } else {
        Some((s.subrange(0, r), s.subrange(r + 1, s.len() as int)))
    }
}

/// Splits `data` at the first occurrence of `sep`, which is dropped.
pub fn split_once(data: &[u8], sep: u8) -> (r: Option<(Vec<u8>, Vec<u8>)>)
    ensures
        match r {
            Some((a, b)) => spec_split_once(data@, sep) == Some((a@, b@)),
            None => spec_split_once(data@, sep) is None,
        },
{
    let n = data.len();
    match find_byte(data, sep) {
        None => None,
        Some(i) => {
            proof {
                lemma_find(data@, sep);
                assert(0 <= i < n);
            }
            let a = slice_to_vec(slice_subrange(data, 0, i));
            let b = slice_to_vec(slice_subrange(data, i + 1, n));
            Some((a, b))
        },
    }
}

/// Whether `s` is one or more decimal digit characters.
pub open spec fn spec_is_digits(s: Seq<u8>) -> bool {
    s.len() > 0 && forall|i: int| 0 <= i < s.len() ==> 0x30 <= #[trigger] s[i] <= 0x39
}

/// The value of decimal digit text.
pub open spec fn spec_dec_value(s: Seq<u8>) -> int
    decreases s.len(),
{
    if s.len() == 0 {
        0
    } else {
        spec_dec_value(s.drop_last()) * 10 + (s.last() - 0x30)
    }
}

/// Reads one to three decimal digits as a number below 1000. `None` exactly
/// on empty, longer, or non-digit text.
pub fn parse_decimal(data: &[u8]) -> (r: Option<u16>)
    ensures
        match r {
            Some(v) => spec_is_digits(data@) && data@.len() <= 3 && v == spec_dec_value(data@)
                && v < 1000,
            None => !(spec_is_digits(data@) && data@.len() <= 3),
        },
{
    let n = data.len();
    if n == 0 || n > 3 {
        return None;
    }
    let mut v: u16 = 0;
    let mut i: usize = 0;
    while i < n
        invariant
            i <= n,
            n == data@.len(),
            n <= 3,
            forall|j: int| 0 <= j < i ==> 0x30 <= #[trigger] data@[j] <= 0x39,
            v == spec_dec_value(data@.subrange(0, i as int)),
            v < 1000,
        decreases n - i,
    {
        let c = data[i];
        if c < 0x30 || c > 0x39 {
            return None;
        }
        proof {
            assert(data@.subrange(0, i + 1).drop_last() =~= data@.subrange(0, i as int));
            assert(data@.subrange(0, i + 1).last() == data@[i as int]);
            assert(spec_dec_value(data@.subrange(0, i as int)) < 100) by {
                lemma_dec_value_bound(data@.subrange(0, i as int));
            }
        }
        v = v * 10 + ((c - 0x30) as u16);
        i = i + 1;
    }
    proof {
        assert(data@.subrange(0, n as int) =~= data@);
    }
    Some(v)
}

/// Digit text of length at most `n` stays below `10^n` (up to three digits).
proof fn lemma_dec_value_bound(s: Seq<u8>)
    requires
        forall|i: int| 0 <= i < s.len() ==> 0x30 <= #[trigger] s[i] <= 0x39,
        s.len() <= 2,
    ensures
        spec_dec_value(s) < 100,
        spec_dec_value(s) >= 0,
    decreases s.len(),
{
    if s.len() > 0 {
        lemma_dec_value_bound(s.drop_last());
        assert(spec_dec_value(s.drop_last()) < 10) by {
            if s.len() == 2 {
                lemma_dec_value_tiny(s.drop_last());
            } else {
                assert(s.drop_last().len() == 0);
            }
        }
    }
}

/// Digit text of length at most one stays below 10.
proof fn lemma_dec_value_tiny(s: Seq<u8>)
    requires
        forall|i: int| 0 <= i < s.len() ==> 0x30 <= #[trigger] s[i] <= 0x39,
        s.len() <= 1,
    ensures
        0 <= spec_dec_value(s) < 10,
{
    if s.len() == 1 {
        assert(s.drop_last().len() == 0);
        assert(spec_dec_value(s.drop_last()) == 0);
        assert(spec_dec_value(s) == spec_dec_value(s.drop_last()) * 10 + (s.last() - 0x30));
        assert(0x30 <= s[0] <= 0x39);
        assert(s.last() == s[0]);
    }
}

/// Relies on `alloc::string::String::push`: appends exactly one character.
pub assume_specification[ String::push ](s: &mut String, c: char)
    ensures
        final(s)@ == old(s)@.push(c),
;

/// The character of one decimal digit.
pub open spec fn spec_digit(d: int) -> char {
    if d == 0 {
        '0'
    } else if d == 1 {
        '1'
    } else if d == 2 {
        '2'
    } else if d == 3 {
        '3'
    } else if d == 4 {
        '4'
    } else if d == 5 {
        '5'
    } else if d == 6 {
        '6'
    } else if d == 7 {
        '7'
    } else if d == 8 {
        '8'
    } else {
        '9'
    }
}

/// The character of one lowercase hexadecimal digit.
pub open spec fn spec_hex_digit(d: int) -> char {
    if d < 10 {
        spec_digit(d)
    } else if d == 10 {
        'a'
    } else if d == 11 {
        'b'
    } else if d == 12 {
        'c'
    } else if d == 13 {
        'd'
    } else if d == 14 {
        'e'
    } else {
        'f'
    }
}

/// The shortest decimal text of a byte value.
pub open spec fn spec_u8_dec(v: u8) -> Seq<char> {
    if v < 10 {
        seq![spec_digit(v as int)]
    } else if v < 100 {
        seq![spec_digit(v as int / 10), spec_digit(v as int % 10)]
    } else {
        seq![spec_digit(v as int / 100), spec_digit((v as int / 10) % 10), spec_digit(v as int % 10)]
    }
}

/// The shortest lowercase hex text of a 16-bit value: one to four digits,
/// without leading zeros.
pub open spec fn spec_u16_hex_short(v: u16) -> Seq<char> {
    if v < 0x10 {
        seq![spec_hex_digit(v as int)]
    } else if v < 0x100 {
        seq![spec_hex_digit(v as int / 0x10), spec_hex_digit(v as int % 0x10)]
    } else if v < 0x1000 {
        seq![
            spec_hex_digit(v as int / 0x100),
            spec_hex_digit((v as int / 0x10) % 0x10),
            spec_hex_digit(v as int % 0x10),
        ]
    } else {
        seq![
            spec_hex_digit(v as int / 0x1000),
            spec_hex_digit((v as int / 0x100) % 0x10),
            spec_hex_digit((v as int / 0x10) % 0x10),
            spec_hex_digit(v as int % 0x10),
        ]
    }
}

/// The character of one decimal digit value.
fn digit_char(d: u8) -> (r: char)
    requires
        d < 10,
    ensures
        r == spec_digit(d as int),
{
    if d == 0 {
        '0'
    } else if d == 1 {
        '1'
    } else if d == 2 {
        '2'
    } else if d == 3 {
        '3'
    } else if d == 4 {
        '4'
    } else if d == 5 {
        '5'
    } else if d == 6 {
        '6'
    } else if d == 7 {
        '7'
    } else if d == 8 {
        '8'
    } else {
        '9'
    }
}

/// The character of one hexadecimal digit value.
fn hex_digit_char(d: u8) -> (r: char)
    requires
        d < 16,
    ensures
        r == spec_hex_digit(d as int),
{
    if d < 10 {
        digit_char(d)
    } else if d == 10 {
        'a'
    } else if d == 11 {
        'b'
    } else if d == 12 {
        'c'
    } else if d == 13 {
        'd'
    } else if d == 14 {
        'e'
    } else {
        'f'
    }
}

/// Appends the shortest decimal text of a byte value.
pub fn push_u8_dec(out: &mut String, v: u8)
    ensures
        final(out)@ == old(out)@ + spec_u8_dec(v),
{
    if v < 10 {
        out.push(digit_char(v));
    } else if v < 100 {
        out.push(digit_char(v / 10));
        out.push(digit_char(v % 10));
    } else {
        out.push(digit_char(v / 100));
        out.push(digit_char((v / 10) % 10));
        out.push(digit_char(v % 10));
    }
    assert(out@ =~= old(out)@ + spec_u8_dec(v));
}

/// Appends the shortest lowercase hex text of a 16-bit value.
pub fn push_u16_hex_short(out: &mut String, v: u16)
    ensures
        final(out)@ == old(out)@ + spec_u16_hex_short(v),
{
    if v < 0x10 {
        out.push(hex_digit_char(v as u8));
    } else if v < 0x100 {
        out.push(hex_digit_char((v / 0x10) as u8));
        out.push(hex_digit_char((v % 0x10) as u8));
    } else if v < 0x1000 {
        out.push(hex_digit_char((v / 0x100) as u8));
        out.push(hex_digit_char(((v / 0x10) % 0x10) as u8));
        out.push(hex_digit_char((v % 0x10) as u8));
    } else {
        out.push(hex_digit_char((v / 0x1000) as u8));
        out.push(hex_digit_char(((v / 0x100) % 0x10) as u8));
        out.push(hex_digit_char(((v / 0x10) % 0x10) as u8));
        out.push(hex_digit_char((v % 0x10) as u8));
    }
    assert(out@ =~= old(out)@ + spec_u16_hex_short(v));
}

/// Whether two byte sequences hold the same text.
pub fn bytes_eq(a: &[u8], b: &[u8]) -> (r: bool)
    ensures
        r == (a@ == b@),
{
    if a.len() != b.len() {
        return false;
    }
    let n = a.len();
    let mut i: usize = 0;
    while i < n
        invariant
            i <= n,
            n == a@.len(),
            n == b@.len(),
            forall|j: int| 0 <= j < i ==> a@[j] == b@[j],
        decreases n - i,
    {
        if a[i] != b[i] {
            return false;
        }
        i = i + 1;
    }
    proof {
        assert(a@ =~= b@);
    }
    true
}

} // verus!
