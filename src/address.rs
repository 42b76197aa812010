//! Colon-hexadecimal text form of Bluetooth hardware addresses.

use vstd::prelude::*;

verus! {

/// The upper-case hexadecimal digit for `n` (below 16).
pub open spec fn hex_digit(n: u8) -> char {
    seq!['0', '1', '2', '3', '4', '5', '6', '7', '8', '9', 'A', 'B', 'C', 'D', 'E', 'F'][n as int]
}

/// The two hexadecimal digits of a byte, high nibble first.
pub open spec fn byte_text(b: u8) -> Seq<char> {
    seq![hex_digit(b / 16), hex_digit(b % 16)]
}

/// The text form of a six-byte address: `AA:BB:CC:DD:EE:FF`.
pub open spec fn address_text_of(a: Seq<u8>) -> Seq<char> {
    byte_text(a[0]) + seq![':'] + byte_text(a[1]) + seq![':'] + byte_text(a[2]) + seq![':']
        + byte_text(a[3]) + seq![':'] + byte_text(a[4]) + seq![':'] + byte_text(a[5])
}

/// What parsing `s` as an address yields: the six bytes, or nothing.
pub uninterp spec fn parsed_address(s: Seq<char>) -> Option<Seq<u8>>;

/// Relies on bluer's `Display` for `Address`, which writes each of the six
/// bytes as two upper-case hexadecimal digits, separated by colons.
#[verifier::external_body]
pub(crate) fn address_text(bytes: [u8; 6]) -> (r: String)
    ensures
        r@ == address_text_of(bytes@),
{
    bluer::Address(bytes).to_string()
}

/// Relies on bluer's `FromStr` for `Address`: six colon-separated hexadecimal
/// fields, each read as one byte; text that `Display` wrote reads back as the
/// same bytes.
#[verifier::external_body]
pub(crate) fn parse_address(s: &str) -> (r: Option<[u8; 6]>)
    ensures
        r is Some <==> parsed_address(s@) is Some,
        r is Some ==> parsed_address(s@) == Some(r->0@),
        forall|b: [u8; 6]| #[trigger] address_text_of(b@) == s@ ==> r == Some(b),
{
    s.parse::<bluer::Address>().ok().map(|a| a.0)
}

} // verus!
