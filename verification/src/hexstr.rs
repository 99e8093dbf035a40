//! Lowercase hex rendering of byte strings, and the `0x`-prefixed address
//! form used for wallet addresses.

use vstd::prelude::*;

verus! {

use vstd::string::StringExecFns;

/// The character for one hex digit.
pub open spec fn hex_digit(d: nat) -> char {
    if d == 0 {
        '0'
    } else if d == 1 {
        '1'
    } else if d == 2 {
        '2'
    } else if d == 3 {
        '3'
    } else if d == 4 {
        '4'
    } else if d == 5 {
        '5'
    } else if d == 6 {
        '6'
    } else if d == 7 {
        '7'
    } else if d == 8 {
        '8'
    } else if d == 9 {
        '9'
    } else if d == 10 {
        'a'
    } else if d == 11 {
        'b'
    } else if d == 12 {
        'c'
    } else if d == 13 {
        'd'
    } else if d == 14 {
        'e'
    } else {
        'f'
    }
}

/// Each byte as two lowercase hex digits, high nibble first.
pub open spec fn hex_of(b: Seq<u8>) -> Seq<char>
    decreases b.len(),
{
    if b.len() == 0 {
        Seq::empty()
    } else {
        seq![hex_digit((b[0] / 16) as nat), hex_digit((b[0] % 16) as nat)] + hex_of(
            b.drop_first(),
        )
    }
}

/// Relies on `hex::encode`: encodes each input byte, in order, as exactly
/// two lowercase hex digits.
#[verifier::external_body]
fn hex_encode(b: &Vec<u8>) -> (r: String)
    ensures
        r@ == hex_of(b@),
{
    hex::encode(b.as_slice())
}

/// A byte string as a `0x`-prefixed lowercase hex literal.
pub fn convert_to_hex(addr: &Vec<u8>) -> (r: String)
    ensures
        r@ == "0x"@ + hex_of(addr@),
{
    let mut s = String::from_str("0x");
    let body = hex_encode(addr);
    s.append(body.as_str());
    s
}

} // verus!
