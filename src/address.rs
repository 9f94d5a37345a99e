use std::str::FromStr;
use vstd::prelude::*;

verus! {

/// A hexadecimal digit, in either case.
pub open spec fn is_hex_digit(c: char) -> bool {
    ('0' <= c && c <= '9') || ('a' <= c && c <= 'f') || ('A' <= c && c <= 'F')
}

/// Whitespace that may stand between hexadecimal digits.
pub open spec fn is_hex_space(c: char) -> bool {
    c == ' ' || c == '\r' || c == '\n' || c == '\t'
}

/// The value of a hexadecimal digit.
pub open spec fn hex_value(c: char) -> nat {
    if '0' <= c && c <= '9' {
        (c as u32 - '0' as u32) as nat
    } else if 'a' <= c && c <= 'f' {
        (c as u32 - 'a' as u32 + 10) as nat
    } else {
        (c as u32 - 'A' as u32 + 10) as nat
    }
}

/// The text with one leading `0x` removed, if it has one.
pub open spec fn strip_hex_prefix(s: Seq<char>) -> Seq<char> {
    if s.len() >= 2 && s[0] == '0' && s[1] == 'x' {
        s.subrange(2, s.len() as int)
    } else {
        s
    }
}

/// The hexadecimal digits of the text after its prefix, in order.
pub open spec fn address_digits(s: Seq<char>) -> Seq<char> {
    strip_hex_prefix(s).filter(|c: char| is_hex_digit(c))
}

/// An address in text: an optional `0x`, then exactly forty hexadecimal
/// digits, among which only whitespace may stand.
pub open spec fn is_address_text(s: Seq<char>) -> bool {
    let t = strip_hex_prefix(s);
    &&& forall|i: int| 0 <= i < t.len() ==> is_hex_digit(#[trigger] t[i]) || is_hex_space(t[i])
    &&& address_digits(s).len() == 40
}

/// The twenty bytes that an address text denotes, most significant first.
pub open spec fn address_bytes(s: Seq<char>) -> Seq<u8> {
    let d = address_digits(s);
    Seq::new(20, |i: int| (hex_value(d[2 * i]) * 16 + hex_value(d[2 * i + 1])) as u8)
}

/// Relies on web3's `Address::from_str` (fixed-hash's `FromStr` over
/// rustc-hex's digit reader): it strips one `0x`, skips whitespace, reads
/// digit pairs into twenty big-endian bytes, and fails on any other character
/// or on any digit count but forty.
#[verifier::external_body]
pub(crate) fn parse_address(text: &str) -> (r: Option<[u8; 20]>)
    ensures
        r.is_some() <==> is_address_text(text@),
        r matches Some(b) ==> b@ == address_bytes(text@),
{
    web3::types::Address::from_str(text).ok().map(|a| a.0)
}

/// Whether the text is a well-formed contract address.
pub fn is_valid_address(text: &str) -> (r: bool)
    ensures
        r == is_address_text(text@),
{
    parse_address(text).is_some()
}

} // verus!
