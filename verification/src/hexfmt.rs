//! The wire convention for binary fields: lowercase hex with a "0x" prefix.

use vstd::prelude::*;
use vstd::string::StringExecFns;

verus! {

/// The lowercase character for one hex digit value.
pub open spec fn hex_digit(d: nat) -> char {
    if d == 0 {
        '0'
    } else if d == 1 {
        '1'
    } else if d == 2 {
        '2'
    } else if d == 3 {
        '3'
    } else if d == 4 {
        '4'
    } else if d == 5 {
        '5'
    } else if d == 6 {
        '6'
    } else if d == 7 {
        '7'
    } else if d == 8 {
        '8'
    } else if d == 9 {
        '9'
    } else if d == 10 {
        'a'
    } else if d == 11 {
        'b'
    } else if d == 12 {
        'c'
    } else if d == 13 {
        'd'
    } else if d == 14 {
        'e'
    } else {
        'f'
    }
}

/// Lowercase hex rendering of a byte sequence: two digits per byte, high
/// nibble first, in input order.
pub open spec fn hex_chars(b: Seq<u8>) -> Seq<char>
    decreases b.len(),
{
    if b.len() == 0 {
        Seq::empty()
    } else {
        seq![hex_digit((b[0] / 16) as nat), hex_digit((b[0] % 16) as nat)] + hex_chars(
            b.drop_first(),
        )
    }
}

/// A binary field as it is surfaced downstream: lowercase hex prefixed
/// with "0x".
pub open spec fn hex0x_chars(b: Seq<u8>) -> Seq<char> {
    seq!['0', 'x'] + hex_chars(b)
}

/// Relies on hex::encode: it renders each byte as two lowercase hex digits,
/// high nibble first, in input order.
#[verifier::external_body]
fn hex_encode(bytes: &[u8]) -> (r: String)
    ensures
        r@ == hex_chars(bytes@),
{
    hex::encode(bytes)
}

/// Renders a byte sequence as a lowercase hex identifier prefixed with "0x".
pub fn base_64_to_hex(bytes: &[u8]) -> (r: String)
    ensures
        r@ == hex0x_chars(bytes@),
{
    let digits = hex_encode(bytes);
    let r = String::from_str("0x").concat(digits.as_str());
    proof {
        reveal_strlit("0x");
        assert(r@ =~= hex0x_chars(bytes@));
    }
    r
}

} // verus!
