//! Lowercase hexadecimal rendering of integers and byte strings, as ASCII
//! bytes. The canonical submission hash is computed over such renderings.

use vstd::prelude::*;

verus! {

/// The ASCII code of the lowercase hexadecimal digit for a value below 16.
pub open spec fn spec_hex_digit(d: u8) -> u8
    recommends
        d < 16,
{
    if d < 10 {
        (48 + d) as u8
    } else {
        (87 + d) as u8
    }
}

/// The shortest lowercase hexadecimal rendering of a number, as ASCII bytes:
/// most significant digit first, a single `0` digit for zero.
pub open spec fn spec_hex_nat(n: nat) -> Seq<u8>
    decreases n,
{
    if n < 16 {
        seq![spec_hex_digit(n as u8)]
    } else {
        spec_hex_nat(n / 16).push(spec_hex_digit((n % 16) as u8))
    }
}

/// The lowercase hexadecimal rendering of a byte string, as ASCII bytes:
/// two digits per byte, high nibble first.
pub open spec fn spec_hex_bytes(b: Seq<u8>) -> Seq<u8>
    decreases b.len(),
{
    if b.len() == 0 {
        Seq::empty()
    } else {
        spec_hex_bytes(b.drop_last()) + seq![
            spec_hex_digit(b.last() / 16),
            spec_hex_digit(b.last() % 16),
        ]
    }
}

fn hex_digit(d: u8) -> (r: u8)
    requires
        d < 16,
    ensures
        r == spec_hex_digit(d),
{
    if d < 10 {
        48 + d
    } else {
        87 + d
    }
}

/// The shortest lowercase hexadecimal rendering of `n`, as ASCII bytes.
pub fn u64_hex(n: u64) -> (r: Vec<u8>)
    ensures
        r@ == spec_hex_nat(n as nat),
    decreases n,
{
    if n < 16 {
        let mut v: Vec<u8> = Vec::new();
        v.push(hex_digit(n as u8));
        proof {
            assert(v@ =~= spec_hex_nat(n as nat));
        }
        v
    } else {
        let mut v = u64_hex(n / 16);
        v.push(hex_digit((n % 16) as u8));
        v
    }
}

/// Relies on hex::encode: lowercase hexadecimal, two digits per byte, high
/// nibble first.
#[verifier::external_body]
pub(crate) fn hex_encode(b: &Vec<u8>) -> (r: Vec<u8>)
    ensures
        r@ == spec_hex_bytes(b@),
{
    hex::encode(b).into_bytes()
}

} // verus!
