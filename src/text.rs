//! Text primitives: slicing a name by byte span, its characters, decimal
//! numbers, and white space.
use vstd::prelude::*;
use vstd::string::StringSliceAdditionalSpecFns;
use vstd::utf8::{decode_utf8, encode_utf8, encode_utf8_decode_utf8, is_char_boundary};

verus! {

/// The characters that the bytes `start..end` of a text encode.
pub open spec fn substr(bytes: Seq<u8>, start: int, end: int) -> Seq<char> {
    decode_utf8(bytes.subrange(start, end))
}

/// The part of `text` between two byte offsets on character boundaries.
pub fn slice(text: &str, start: usize, end: usize) -> (r: &str)
    requires
        start <= end <= text.spec_bytes().len(),
        is_char_boundary(text.spec_bytes(), start as int),
        is_char_boundary(text.spec_bytes(), end as int),
    ensures
        r@ == substr(text.spec_bytes(), start as int, end as int),
        r.spec_bytes() == text.spec_bytes().subrange(start as int, end as int),
{
    let (head, _) = text.split_at(end);
    assert(is_char_boundary(head.spec_bytes(), start as int)) by {
        let b = text.spec_bytes();
        assert(head.spec_bytes() =~= b.subrange(0, end as int));
        vstd::utf8::encode_utf8_valid_utf8(text@);
        vstd::utf8::valid_utf8_split(b, end as int);
        if start < end {
            vstd::utf8::is_char_boundary_iff_not_is_continuation_byte(b, start as int);
            vstd::utf8::is_char_boundary_iff_not_is_continuation_byte(head.spec_bytes(), start as int);
        } else {
            vstd::utf8::is_char_boundary_start_end_of_seq(head.spec_bytes());
        }
    }
    let (_, tail) = head.split_at(start);
    assert(tail.spec_bytes() =~= text.spec_bytes().subrange(start as int, end as int));
    proof {
        encode_utf8_decode_utf8(tail@);
    }
    tail
}

/// The characters of a text, in order.
pub fn chars_of(s: &str) -> (r: Vec<char>)
    ensures
        r@ == s@,
{
    let mut out: Vec<char> = Vec::new();
    for c in it: s.chars()
        invariant
            out@ == it.seq().take(it.index() as int),
            it.seq() == s@,
    {
        out.push(c);
    }
    out
}

/// Relies on `String`'s `FromIterator<char>`: the string of the characters, in order.
#[verifier::external_body]
pub(crate) fn string_of(v: &Vec<char>) -> (r: String)
    ensures
        r@ == v@,
{
    v.iter().collect()
}

/// Whether a character has Unicode's White_Space property.
pub open spec fn white_space(c: char) -> bool {
    let u = c as u32;
    (0x9 <= u <= 0xd) || u == 0x20 || u == 0x85 || u == 0xa0 || u == 0x1680 || (0x2000 <= u
        <= 0x200a) || u == 0x2028 || u == 0x2029 || u == 0x202f || u == 0x205f || u == 0x3000
}

pub fn is_white_space(c: char) -> (r: bool)
    ensures
        r == white_space(c),
{
    let u = c as u32;
    (0x9 <= u && u <= 0xd) || u == 0x20 || u == 0x85 || u == 0xa0 || u == 0x1680 || (0x2000 <= u
        && u <= 0x200a) || u == 0x2028 || u == 0x2029 || u == 0x202f || u == 0x205f || u == 0x3000
}

/// Whether a byte is an ASCII decimal digit.
pub open spec fn is_digit_byte(b: u8) -> bool {
    48 <= b <= 57
}

/// The number that a run of decimal digits writes.
pub open spec fn decimal_value(s: Seq<u8>) -> int
    decreases s.len(),
{
    if s.len() == 0 {
        0
    } else {
        decimal_value(s.drop_last()) * 10 + (s.last() - 48)
    }
}

/// The `i32` that a text writes in decimal digits: `None` unless it is a
/// non-empty run of ASCII digits whose value fits.
pub open spec fn decimal(s: Seq<u8>) -> Option<i32> {
    if s.len() > 0 && (forall|i: int| 0 <= i < s.len() ==> is_digit_byte(#[trigger] s[i]))
        && decimal_value(s) <= i32::MAX {
        Some(decimal_value(s) as i32)
    } else {
        None
    }
}

proof fn lemma_decimal_value_nonneg(s: Seq<u8>)
    requires
        forall|i: int| 0 <= i < s.len() ==> is_digit_byte(#[trigger] s[i]),
    ensures
        decimal_value(s) >= 0,
    decreases s.len(),
{
    if s.len() > 0 {
        lemma_decimal_value_nonneg(s.drop_last());
    }
}

/// Reads the decimal number held by bytes `start..end`.
pub fn parse_decimal(bytes: &[u8], start: usize, end: usize) -> (r: Option<i32>)
    requires
        start <= end <= bytes@.len(),
    ensures
        r == decimal(bytes@.subrange(start as int, end as int)),
{
    let ghost s = bytes@.subrange(start as int, end as int);
    if start == end {
        return None;
    }
    let mut value: i32 = 0;
    let mut i: usize = start;
    while i < end
        invariant
            start <= i <= end <= bytes@.len(),
            s == bytes@.subrange(start as int, end as int),
            forall|j: int| 0 <= j < i - start ==> is_digit_byte(#[trigger] s[j]),
            value as int == decimal_value(s.take(i - start)),
            0 <= value,
        decreases end - i,
    {
        let b = bytes[i];
        assert(s.take(i - start + 1).drop_last() =~= s.take(i - start));
        assert(s[i - start] == b);
        if b < 48 || b > 57 {
            return None;
        }
        let d = (b - 48) as i32;
        if value > (i32::MAX - d) / 10 {
            assert(decimal_value(s.take(i - start + 1)) > i32::MAX) by (nonlinear_arith)
                requires
                    decimal_value(s.take(i - start + 1)) == value * 10 + d,
                    value > (i32::MAX - d) / 10,
                    0 <= d <= 9,
            ;
            proof {
                lemma_decimal_prefix_bound(s, i - start + 1);
            }
            return None;
        }
        value = value * 10 + d;
        i = i + 1;
    }
    assert(s.take(end - start) =~= s);
    Some(value)
}

/// A longer run of digits never writes a smaller number.
proof fn lemma_decimal_prefix_bound(s: Seq<u8>, k: int)
    requires
        0 <= k <= s.len(),
        forall|j: int| 0 <= j < k ==> is_digit_byte(#[trigger] s[j]),
        decimal_value(s.take(k)) > i32::MAX,
    ensures
        decimal(s) is None,
    decreases s.len() - k,
{
    if k < s.len() {
        if is_digit_byte(s[k]) {
            assert(s.take(k + 1).drop_last() =~= s.take(k));
            lemma_decimal_value_nonneg(s.take(k));
            lemma_decimal_prefix_bound(s, k + 1);
        }
    } else {
        assert(s.take(k) =~= s);
    }
}

} // verus!
