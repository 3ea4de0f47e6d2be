//! Hexadecimal encoding and decoding of byte strings, modelled exactly at the
//! specification level: `hex_of` gives the lowercase encoding of a byte
//! sequence and `hex_val` the bytes denoted by a string of hex digits.

use vstd::prelude::*;

verus! {

/// The lowercase character for a single hex digit value.
pub open spec fn nib_char(n: int) -> char {
    if n == 0 {
        '0'
    } else if n == 1 {
        '1'
    } else if n == 2 {
        '2'
    } else if n == 3 {
        '3'
    } else if n == 4 {
        '4'
    } else if n == 5 {
        '5'
    } else if n == 6 {
        '6'
    } else if n == 7 {
        '7'
    } else if n == 8 {
        '8'
    } else if n == 9 {
        '9'
    } else if n == 10 {
        'a'
    } else if n == 11 {
        'b'
    } else if n == 12 {
        'c'
    } else if n == 13 {
        'd'
    } else if n == 14 {
        'e'
    } else if n == 15 {
        'f'
    } else {
        '?'
    }
}

/// The numeric value of a hex digit character; 16 marks a non-digit.
pub open spec fn char_nib(c: char) -> int {
    if c == '0' {
        0
    } else if c == '1' {
        1
    } else if c == '2' {
        2
    } else if c == '3' {
        3
    } else if c == '4' {
        4
    } else if c == '5' {
        5
    } else if c == '6' {
        6
    } else if c == '7' {
        7
    } else if c == '8' {
        8
    } else if c == '9' {
        9
    } else if c == 'a' || c == 'A' {
        10
    } else if c == 'b' || c == 'B' {
        11
    } else if c == 'c' || c == 'C' {
        12
    } else if c == 'd' || c == 'D' {
        13
    } else if c == 'e' || c == 'E' {
        14
    } else if c == 'f' || c == 'F' {
        15
    } else {
        16
    }
}

pub open spec fn is_hex_digit(c: char) -> bool {
    char_nib(c) < 16
}

pub open spec fn is_lower_hex_digit(c: char) -> bool {
    is_hex_digit(c) && nib_char(char_nib(c)) == c
}

/// A string accepted by hex decoding: even length, hex digits only
/// (either case).
pub open spec fn is_hex(s: Seq<char>) -> bool {
    s.len() % 2 == 0 && forall|i: int| 0 <= i < s.len() ==> is_hex_digit(#[trigger] s[i])
}

/// A string that hex encoding can produce: even length, lowercase digits only.
pub open spec fn is_lower_hex(s: Seq<char>) -> bool {
    s.len() % 2 == 0 && forall|i: int| 0 <= i < s.len() ==> is_lower_hex_digit(#[trigger] s[i])
}

/// The bytes denoted by a string of hex digit pairs.
pub open spec fn hex_val(s: Seq<char>) -> Seq<u8> {
    Seq::new((s.len() / 2) as nat, |i: int| (char_nib(s[2 * i]) * 16 + char_nib(s[2 * i + 1])) as u8)
}

/// The lowercase hex encoding of a byte sequence.
pub open spec fn hex_of(b: Seq<u8>) -> Seq<char> {
    Seq::new(
        (b.len() * 2) as nat,
        |i: int|
            if i % 2 == 0 {
                nib_char(b[i / 2] as int / 16)
            } else {
                nib_char(b[i / 2] as int % 16)
            },
    )
}

pub proof fn lemma_nib_char_inverse(n: int)
    requires
        0 <= n < 16,
    ensures
        char_nib(nib_char(n)) == n,
        is_lower_hex_digit(nib_char(n)),
{
}

/// Encoding any byte sequence yields a valid lowercase hex string, and
/// decoding it returns the original bytes.
pub proof fn lemma_hex_of_round_trip(b: Seq<u8>)
    ensures
        is_lower_hex(hex_of(b)),
        is_hex(hex_of(b)),
        hex_val(hex_of(b)) == b,
{
    let s = hex_of(b);
    assert forall|i: int| 0 <= i < s.len() implies is_lower_hex_digit(#[trigger] s[i]) by {
        let v = b[i / 2] as int;
        if i % 2 == 0 {
            lemma_nib_char_inverse(v / 16);
        } else {
            lemma_nib_char_inverse(v % 16);
        }
    }
    assert forall|i: int| 0 <= i < hex_val(s).len() implies hex_val(s)[i] == b[i] by {
        let v = b[i] as int;
        assert(s[2 * i] == nib_char(v / 16));
        assert(s[2 * i + 1] == nib_char(v % 16));
        lemma_nib_char_inverse(v / 16);
        lemma_nib_char_inverse(v % 16);
        assert(v / 16 * 16 + v % 16 == v);
    }
    assert(hex_val(s) =~= b);
}

/// Decoding a lowercase hex string and re-encoding the bytes reproduces
/// the string.
pub proof fn lemma_hex_val_round_trip(s: Seq<char>)
    requires
        is_lower_hex(s),
    ensures
        hex_of(hex_val(s)) == s,
{
    let b = hex_val(s);
    assert forall|i: int| 0 <= i < hex_of(b).len() implies hex_of(b)[i] == s[i] by {
        let j = i / 2;
        let hi = char_nib(s[2 * j]);
        let lo = char_nib(s[2 * j + 1]);
        assert(is_lower_hex_digit(s[2 * j]));
        assert(is_lower_hex_digit(s[2 * j + 1]));
        assert(b[j] == (hi * 16 + lo) as u8);
        assert(0 <= hi < 16 && 0 <= lo < 16);
        assert((hi * 16 + lo) / 16 == hi);
        assert((hi * 16 + lo) % 16 == lo);
        if i % 2 == 0 {
            assert(2 * j == i);
        } else {
            assert(2 * j + 1 == i);
        }
    }
    assert(hex_of(b) =~= s);
}

/// Relies on hex::encode: it returns the lowercase hex encoding of the
/// input bytes, two digits per byte.
#[verifier::external_body]
pub(crate) fn bytes_to_hex(b: &[u8]) -> (r: String)
    ensures
        r@ == hex_of(b@),
{
    hex::encode(b)
}

/// Relies on hex::decode: it succeeds exactly on even-length strings of
/// hex digits (either case) and returns the bytes the digit pairs denote.
#[verifier::external_body]
pub(crate) fn hex_to_bytes(s: &str) -> (r: Option<Vec<u8>>)
    ensures
        r is Some <==> is_hex(s@),
        r matches Some(b) ==> b@ == hex_val(s@),
{
    hex::decode(s).ok()
}

} // verus!
