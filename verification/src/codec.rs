//! Byte-level codecs of the wire protocol: the hexadecimal text encoding used
//! by hints, and the 8-byte big-endian length prefix used by channel framing.
//!
//! The mathematical model (`hex_of`, `bytes_of_hex`, `be_bytes_of_u64`,
//! `u64_of_be_bytes`) is what every contract in the crate speaks of; the
//! executable hex conversions are delegated to an outside library and held to
//! that model.

use vstd::prelude::*;

verus! {

use vstd::string::StrSliceExecFns;
use vstd::utf8::is_ascii_chars;

/// The lower-case hex character of one nibble.
pub open spec fn hex_char_of_nibble(n: u8) -> char
    recommends
        n < 16,
{
    if n == 0 {
        '0'
    } else if n == 1 {
        '1'
    } else if n == 2 {
        '2'
    } else if n == 3 {
        '3'
    } else if n == 4 {
        '4'
    } else if n == 5 {
        '5'
    } else if n == 6 {
        '6'
    } else if n == 7 {
        '7'
    } else if n == 8 {
        '8'
    } else if n == 9 {
        '9'
    } else if n == 10 {
        'a'
    } else if n == 11 {
        'b'
    } else if n == 12 {
        'c'
    } else if n == 13 {
        'd'
    } else if n == 14 {
        'e'
    } else {
        'f'
    }
}

/// True for the characters the hint grammar accepts in a hex token: digits
/// and letters of either case.
pub open spec fn is_hex_digit(c: char) -> bool {
    ('0' <= c && c <= '9') || ('a' <= c && c <= 'f') || ('A' <= c && c <= 'F')
}

/// The value of one hex digit character.
pub open spec fn hex_digit_val(c: char) -> u8
    recommends
        is_hex_digit(c),
{
    if '0' <= c && c <= '9' {
        (c as u32 - 48) as u8
    } else if 'a' <= c && c <= 'f' {
        (c as u32 - 87) as u8
    } else {
        (c as u32 - 55) as u8
    }
}

/// The canonical lower-case hex encoding of a byte sequence: two characters
/// per byte, high nibble first.
pub open spec fn hex_of(d: Seq<u8>) -> Seq<char>
    decreases d.len(),
{
    if d.len() == 0 {
        Seq::empty()
    } else {
        seq![
            hex_char_of_nibble((d[0] / 16) as u8),
            hex_char_of_nibble((d[0] % 16) as u8),
        ] + hex_of(d.drop_first())
    }
}

/// A well-formed hex token: even length, hex digits throughout. Possibly
/// empty.
pub open spec fn is_hex_str(s: Seq<char>) -> bool {
    s.len() % 2 == 0 && (forall|i: int| 0 <= i < s.len() ==> is_hex_digit(#[trigger] s[i]))
}

/// The bytes a well-formed hex token denotes, two digits per byte.
pub open spec fn bytes_of_hex(s: Seq<char>) -> Seq<u8>
    recommends
        is_hex_str(s),
    decreases s.len(),
{
    if s.len() < 2 {
        Seq::empty()
    } else {
        seq![(hex_digit_val(s[0]) * 16 + hex_digit_val(s[1])) as u8] + bytes_of_hex(s.skip(2))
    }
}

/// Hex digit characters are printable ASCII and are never the token
/// separator.
pub proof fn lemma_hex_digit_not_space(c: char)
    requires
        is_hex_digit(c),
    ensures
        c != ' ',
        '\0' <= c <= '\u{7f}',
{
}

/// The hex encoding of `d` is a well-formed, all-ASCII token of twice the
/// length of `d`, free of separators.
pub proof fn lemma_hex_of_wf(d: Seq<u8>)
    ensures
        hex_of(d).len() == 2 * d.len(),
        is_hex_str(hex_of(d)),
        is_ascii_chars(hex_of(d)),
        forall|i: int| 0 <= i < hex_of(d).len() ==> #[trigger] hex_of(d)[i] != ' ',
    decreases d.len(),
{
    if d.len() == 0 {
    } else {
        lemma_hex_of_wf(d.drop_first());
        let s = hex_of(d);
        let t = hex_of(d.drop_first());
        assert(s.len() == 2 + t.len());
        assert forall|i: int| 0 <= i < s.len() implies is_hex_digit(#[trigger] s[i]) && s[i] != ' '
            && '\0' <= s[i] <= '\u{7f}' by {
            if i >= 2 {
                assert(s[i] == t[i - 2]);
                assert(is_hex_digit(t[i - 2]));
            }
            lemma_hex_digit_not_space(s[i]);
        }
    }
}

/// Decoding inverts encoding: the canonical hex encoding of any byte
/// sequence denotes exactly that sequence.
pub proof fn lemma_bytes_of_hex_of(d: Seq<u8>)
    ensures
        bytes_of_hex(hex_of(d)) == d,
    decreases d.len(),
{
    if d.len() == 0 {
        assert(bytes_of_hex(hex_of(d)) =~= d);
    } else {
        lemma_bytes_of_hex_of(d.drop_first());
        let s = hex_of(d);
        let t = hex_of(d.drop_first());
        lemma_hex_of_wf(d.drop_first());
        assert(s.skip(2) =~= t);
        assert(hex_digit_val(s[0]) == d[0] / 16 && hex_digit_val(s[1]) == d[0] % 16);
        assert((d[0] / 16) * 16 + d[0] % 16 == d[0]) by (nonlinear_arith);
        assert(bytes_of_hex(s) =~= d);
    }
}

/// Turns a byte sequence into its canonical lower-case hex string.
///
/// Relies on `alloy_primitives::hex::encode`: it encodes each input byte as
/// exactly two lower-case hex characters, high nibble first, with no prefix.
#[verifier::external_body]
pub(crate) fn hex_encode(data: &[u8]) -> (r: String)
    ensures
        r@ == hex_of(data@),
{
    alloy_primitives::hex::encode(data)
}

/// Checks whether a token is well-formed hex: even length, hex digit
/// characters throughout.
pub fn is_hex_token(s: &str) -> (r: bool)
    ensures
        r == is_hex_str(s@),
{
    let len = s.unicode_len();
    if len % 2 != 0 {
        return false;
    }
    let mut i: usize = 0;
    while i < len
        invariant
            i <= len,
            len == s@.len(),
            s@.len() % 2 == 0,
            forall|j: int| 0 <= j < i ==> is_hex_digit(#[trigger] s@[j]),
        decreases len - i,
    {
        let c = s.get_char(i);
        let u = c as u32;
        if !((48 <= u && u <= 57) || (97 <= u && u <= 102) || (65 <= u && u <= 70)) {
            proof {
                assert(!is_hex_digit(s@[i as int]));
            }
            return false;
        }
        proof {
            assert(is_hex_digit(s@[i as int]));
        }
        i = i + 1;
    }
    true
}

/// Decodes a well-formed hex token into its bytes.
///
/// Relies on `alloy_primitives::hex::decode`: on an even-length string made
/// only of hex digit characters (such a string is all ASCII and carries no
/// `0x` prefix to strip) it succeeds and pairs the digits into bytes, high
/// nibble first, upper and lower case alike.
#[verifier::external_body]
pub(crate) fn hex_decode(s: &str) -> (r: Vec<u8>)
    requires
        is_hex_str(s@),
    ensures
        r@ == bytes_of_hex(s@),
{
    alloy_primitives::hex::decode(s).unwrap_or_default()
}

/// The 8-byte big-endian encoding of a length, as framed on both channels.
pub open spec fn be_bytes_of_u64(v: u64) -> Seq<u8> {
    seq![
        (v >> 56) as u8,
        (v >> 48) as u8,
        (v >> 40) as u8,
        (v >> 32) as u8,
        (v >> 24) as u8,
        (v >> 16) as u8,
        (v >> 8) as u8,
        v as u8,
    ]
}

/// The length an 8-byte big-endian prefix denotes.
pub open spec fn u64_of_be_bytes(s: Seq<u8>) -> u64
    recommends
        s.len() == 8,
{
    ((s[0] as u64) << 56) | ((s[1] as u64) << 48) | ((s[2] as u64) << 40) | ((s[3] as u64) << 32)
        | ((s[4] as u64) << 24) | ((s[5] as u64) << 16) | ((s[6] as u64) << 8) | (s[7] as u64)
}

/// The big-endian length prefix decodes to the length it was made from.
pub proof fn lemma_be_bytes_round_trip(v: u64)
    ensures
        u64_of_be_bytes(be_bytes_of_u64(v)) == v,
{
    assert((((v >> 56) as u8 as u64) << 56) | (((v >> 48) as u8 as u64) << 48) | (((v >> 40) as u8
        as u64) << 40) | (((v >> 32) as u8 as u64) << 32) | (((v >> 24) as u8 as u64) << 24) | (((v
        >> 16) as u8 as u64) << 16) | (((v >> 8) as u8 as u64) << 8) | (v as u8 as u64) == v)
        by (bit_vector);
}

/// Builds the 8-byte big-endian encoding of `v`.
pub fn be_bytes(v: u64) -> (r: Vec<u8>)
    ensures
        r@ == be_bytes_of_u64(v),
{
    let mut out: Vec<u8> = Vec::new();
    out.push(#[verifier::truncate] ((v >> 56) as u8));
    out.push(#[verifier::truncate] ((v >> 48) as u8));
    out.push(#[verifier::truncate] ((v >> 40) as u8));
    out.push(#[verifier::truncate] ((v >> 32) as u8));
    out.push(#[verifier::truncate] ((v >> 24) as u8));
    out.push(#[verifier::truncate] ((v >> 16) as u8));
    out.push(#[verifier::truncate] ((v >> 8) as u8));
    out.push(#[verifier::truncate] (v as u8));
    proof {
        assert(out@ =~= be_bytes_of_u64(v));
    }
    out
}

/// Reads the length out of an 8-byte big-endian prefix.
pub fn u64_from_be_bytes(b: &Vec<u8>) -> (r: u64)
    requires
        b@.len() == 8,
    ensures
        r == u64_of_be_bytes(b@),
{
    ((b[0] as u64) << 56) | ((b[1] as u64) << 48) | ((b[2] as u64) << 40) | ((b[3] as u64) << 32)
        | ((b[4] as u64) << 24) | ((b[5] as u64) << 16) | ((b[6] as u64) << 8) | (b[7] as u64)
}

} // verus!
