//! The canonical text form of a 128-bit identifier: 26 Crockford base32
//! digits, most significant first. This is the string form that the content
//! hash of an ordering node weight is computed over.

use vstd::prelude::*;

verus! {

/// The ASCII byte of one Crockford base32 digit (alphabet
/// 0123456789ABCDEFGHJKMNPQRSTVWXYZ, which skips I, L, O and U).
pub open spec fn crockford_digit(d: nat) -> u8 {
    (if d < 10 {
        48 + d
    } else if d < 18 {
        55 + d
    } else if d < 20 {
        56 + d
    } else if d < 22 {
        57 + d
    } else if d < 27 {
        58 + d
    } else {
        59 + d
    }) as u8
}

fn crockford_digit_exec(d: u8) -> (r: u8)
    requires
        d < 32,
    ensures
        r == crockford_digit(d as nat),
{
    if d < 10 {
        48 + d
    } else if d < 18 {
        55 + d
    } else if d < 20 {
        56 + d
    } else if d < 22 {
        57 + d
    } else if d < 27 {
        58 + d
    } else {
        59 + d
    }
}

/// The last `n` base32 digits of a value, most significant first.
pub open spec fn base32_digits(v: nat, n: nat) -> Seq<u8>
    decreases n,
{
    if n == 0 {
        Seq::empty()
    } else {
        base32_digits(v / 32, (n - 1) as nat).push(crockford_digit(v % 32))
    }
}

/// The 26-digit text form of a 128-bit identifier.
pub open spec fn identifier_text(v: u128) -> Seq<u8> {
    base32_digits(v as nat, 26)
}

fn base32_digits_exec(v: u128, n: usize) -> (r: Vec<u8>)
    requires
        n <= 26,
    ensures
        r@ == base32_digits(v as nat, n as nat),
    decreases n,
{
    if n == 0 {
        Vec::new()
    } else {
        let mut r = base32_digits_exec(v / 32, n - 1);
        r.push(crockford_digit_exec((v % 32) as u8));
        r
    }
}

/// The 26 ASCII bytes of an identifier's canonical text form.
pub fn identifier_text_bytes(v: u128) -> (r: Vec<u8>)
    ensures
        r@ == identifier_text(v),
{
    base32_digits_exec(v, 26)
}

} // verus!
