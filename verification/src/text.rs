//! Small verified text utilities: exact string comparison and parsing of
//! hex-encoded USB identifiers, as they appear in the device catalog.

use vstd::prelude::*;

verus! {

/// Exact, character-by-character string equality.
pub fn str_eq(a: &str, b: &str) -> (r: bool)
    ensures
        r == (a@ == b@),
{
    let alen = a.unicode_len();
    let blen = b.unicode_len();
    if alen != blen {
        return false;
    }
    let mut i: usize = 0;
    while i < alen
        invariant
            alen == a@.len(),
            alen == b@.len(),
            i <= alen,
            forall|j: int| 0 <= j < i ==> a@[j] == b@[j],
        decreases alen - i,
    {
        if a.get_char(i) != b.get_char(i) {
            return false;
        }
        i += 1;
    }
    proof {
        assert(a@ =~= b@);
    }
    true
}

/// Numeric value of one hex digit, or -1 when the character is not one.
pub open spec fn hex_digit_value(c: char) -> int {
    if '0' <= c && c <= '9' {
        c as int - '0' as int
    } else if 'a' <= c && c <= 'f' {
        10 + c as int - 'a' as int
    } else if 'A' <= c && c <= 'F' {
        10 + c as int - 'A' as int
    } else {
        -1
    }
}

pub open spec fn is_hex_digit(c: char) -> bool {
    hex_digit_value(c) >= 0
}

/// A non-empty string made only of hex digits.
pub open spec fn is_hex_string(s: Seq<char>) -> bool {
    s.len() > 0 && forall|i: int| 0 <= i < s.len() ==> is_hex_digit(#[trigger] s[i])
}

/// The number denoted by a big-endian string of hex digits.
pub open spec fn hex_value(s: Seq<char>) -> int
    decreases s.len(),
{
    if s.len() == 0 {
        0
    } else {
        hex_value(s.drop_last()) * 16 + hex_digit_value(s.last())
    }
}

proof fn lemma_hex_value_nonneg(s: Seq<char>)
    requires
        forall|j: int| 0 <= j < s.len() ==> is_hex_digit(#[trigger] s[j]),
    ensures
        hex_value(s) >= 0,
    decreases s.len(),
{
    if s.len() > 0 {
        lemma_hex_value_nonneg(s.drop_last());
    }
}

/// Appending hex digits never shrinks the denoted value.
proof fn lemma_hex_value_prefix_le(s: Seq<char>, i: int)
    requires
        0 <= i <= s.len(),
        forall|j: int| 0 <= j < s.len() ==> is_hex_digit(#[trigger] s[j]),
    ensures
        hex_value(s.take(i)) <= hex_value(s),
    decreases s.len() - i,
{
    if i == s.len() {
        assert(s.take(i) =~= s);
    } else {
        lemma_hex_value_prefix_le(s, i + 1);
        assert(s.take(i + 1).drop_last() =~= s.take(i));
        lemma_hex_value_nonneg(s.take(i));
    }
}

/// Parse a hex-encoded string into a 16-bit value.
///
/// Returns `Some` exactly when the whole string is a non-empty run of hex
/// digits whose value fits in 16 bits; leading zeros and both digit cases
/// are accepted.
pub fn parse_hex_u16(s: &str) -> (r: Option<u16>)
    ensures
        r is Some <==> is_hex_string(s@) && hex_value(s@) <= 0xFFFF,
        r matches Some(v) ==> v as int == hex_value(s@),
{
    let len = s.unicode_len();
    if len == 0 {
        return None;
    }
    let mut acc: u32 = 0;
    let mut i: usize = 0;
    while i < len
        invariant
            len == s@.len(),
            0 < len,
            i <= len,
            forall|j: int| 0 <= j < i ==> is_hex_digit(#[trigger] s@[j]),
            acc as int == hex_value(s@.take(i as int)),
            acc <= 0xFFFF,
        decreases len - i,
    {
        let c = s.get_char(i);
        let u = c as u32;
        let d: u32 = if u >= 48 && u <= 57 {
            u - 48
        } else if u >= 97 && u <= 102 {
            u - 87
        } else if u >= 65 && u <= 70 {
            u - 55
        } else {
            return None;
        };
        proof {
            assert(d as int == hex_digit_value(s@[i as int]));
            assert(s@.take(i as int + 1).drop_last() =~= s@.take(i as int));
        }
        let next = acc * 16 + d;
        if next > 0xFFFF {
            proof {
                if is_hex_string(s@) {
                    lemma_hex_value_prefix_le(s@, i as int + 1);
                }
            }
            return None;
        }
        acc = next;
        i += 1;
    }
    proof {
        assert(s@.take(len as int) =~= s@);
    }
    Some(acc as u16)
}

} // verus!
