//! Hexadecimal text: what it means for a string to encode bytes, and the
//! encoder and decoder of `alloy_primitives::hex` that the library relies on.

use vstd::prelude::*;

verus! {

/// The sixteen lowercase hexadecimal digits, in order of value.
pub open spec fn hex_digits() -> Seq<char> {
    seq!['0', '1', '2', '3', '4', '5', '6', '7', '8', '9', 'a', 'b', 'c', 'd', 'e', 'f']
}

/// Whether `c` is a hexadecimal digit of either case.
pub open spec fn is_hex_digit(c: char) -> bool {
    ('0' <= c && c <= '9') || ('a' <= c && c <= 'f') || ('A' <= c && c <= 'F')
}

/// The value of a hexadecimal digit of either case.
pub open spec fn hex_value(c: char) -> int {
    if '0' <= c && c <= '9' {
        c as int - '0' as int
    } else if 'a' <= c && c <= 'f' {
        c as int - 'a' as int + 10
    } else {
        c as int - 'A' as int + 10
    }
}

/// Lowercase hexadecimal text of `b`: two digits per byte, high nibble first.
pub open spec fn hex_of(b: Seq<u8>) -> Seq<char> {
    Seq::new(
        2 * b.len(),
        |i: int|
            if i % 2 == 0 {
                hex_digits()[b[i / 2] as int / 16]
            } else {
                hex_digits()[b[i / 2] as int % 16]
            },
    )
}

/// `s` without a leading `0x` or `0X`.
pub open spec fn strip_0x(s: Seq<char>) -> Seq<char> {
    if s.len() >= 2 && s[0] == '0' && (s[1] == 'x' || s[1] == 'X') {
        s.subrange(2, s.len() as int)
    } else {
        s
    }
}

/// Whether `s` is an even number of hexadecimal digits.
pub open spec fn is_hex_text(s: Seq<char>) -> bool {
    s.len() % 2 == 0 && forall|i: int| 0 <= i < s.len() ==> #[trigger] is_hex_digit(s[i])
}

/// The bytes that the hexadecimal text `s` spells, two digits per byte.
pub open spec fn hex_bytes(s: Seq<char>) -> Seq<u8> {
    Seq::new(s.len() / 2, |i: int| (hex_value(s[2 * i]) * 16 + hex_value(s[2 * i + 1])) as u8)
}

/// The bytes that a hex string stands for, when it is one: an optional `0x`
/// prefix, then an even number of digits of either case.
pub open spec fn decoded_hex(s: Seq<char>) -> Option<Seq<u8>> {
    if is_hex_text(strip_0x(s)) {
        Some(hex_bytes(strip_0x(s)))
    } else {
        None
    }
}

/// The error that the outside hex decoder reports.
#[verifier::external_type_specification]
#[verifier::external_body]
pub struct ExFromHexError(alloy_primitives::hex::FromHexError);

/// Relies on `alloy_primitives::hex::encode`: two lowercase digits per byte,
/// high nibble first.
#[verifier::external_body]
pub(crate) fn encode_hex(b: &[u8]) -> (r: String)
    ensures
        r@ == hex_of(b@),
{
    alloy_primitives::hex::encode(b)
}

/// Relies on `alloy_primitives::hex::encode_prefixed`: `0x`, then two
/// lowercase digits per byte.
#[verifier::external_body]
pub(crate) fn encode_hex_prefixed(b: &[u8]) -> (r: String)
    ensures
        r@ == seq!['0', 'x'] + hex_of(b@),
{
    alloy_primitives::hex::encode_prefixed(b)
}

/// Relies on `alloy_primitives::hex::decode`: strips an optional `0x`/`0X`
/// prefix and succeeds exactly on an even number of digits of either case.
#[verifier::external_body]
pub(crate) fn decode_hex(s: &str) -> (r: Result<Vec<u8>, alloy_primitives::hex::FromHexError>)
    ensures
        r is Ok <==> decoded_hex(s@) is Some,
        r is Ok ==> r->Ok_0@ == decoded_hex(s@)->Some_0,
{
    alloy_primitives::hex::decode(s)
}

/// Relies on `<alloy_primitives::B256 as FromHex>::from_hex` (which is
/// `alloy_primitives::hex::decode_to_array`): as `decode`, and it fails
/// unless the digits spell exactly 32 bytes.
#[verifier::external_body]
pub(crate) fn decode_hex_32(s: &str) -> (r: Result<[u8; 32], alloy_primitives::hex::FromHexError>)
    ensures
        r is Ok <==> (decoded_hex(s@) is Some && decoded_hex(s@)->Some_0.len() == 32),
        r is Ok ==> r->Ok_0@ == decoded_hex(s@)->Some_0,
{
    <alloy_primitives::B256 as alloy_primitives::hex::FromHex>::from_hex(s).map(|d| d.0)
}

/// The value of each lowercase digit is its position.
pub proof fn lemma_hex_digit_value(n: int)
    requires
        0 <= n < 16,
    ensures
        is_hex_digit(hex_digits()[n]),
        hex_value(hex_digits()[n]) == n,
{
}

/// Hexadecimal text never starts with `0x`: the lowercase encoding is hex
/// text, and decoding it gives the bytes back.
pub proof fn lemma_hex_round_trip(b: Seq<u8>)
    ensures
        strip_0x(hex_of(b)) == hex_of(b),
        is_hex_text(hex_of(b)),
        decoded_hex(hex_of(b)) == Some(b),
{
    let h = hex_of(b);
    assert forall|i: int| 0 <= i < h.len() implies #[trigger] is_hex_digit(h[i]) by {
        if i % 2 == 0 {
            lemma_hex_digit_value(b[i / 2] as int / 16);
        } else {
            lemma_hex_digit_value(b[i / 2] as int % 16);
        }
    }
    if h.len() >= 2 {
        lemma_hex_digit_value(b[0] as int % 16);
        assert(h[1] != 'x' && h[1] != 'X');
    }
    assert forall|i: int| 0 <= i < b.len() implies #[trigger] hex_bytes(h)[i] == b[i] by {
        assert((2 * i) / 2 == i);
        assert((2 * i + 1) / 2 == i);
        assert((2 * i) % 2 == 0);
        assert((2 * i + 1) % 2 == 1);
        lemma_hex_digit_value(b[i] as int / 16);
        lemma_hex_digit_value(b[i] as int % 16);
    }
    assert(hex_bytes(h) =~= b);
}

} // verus!
