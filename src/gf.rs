//! Arithmetic in GF(2^8), as provided by the `gf256` crate.
//!
//! Field elements are held as plain bytes. Addition and subtraction are the
//! byte-wise xor and are written directly; the other operations call into
//! `gf256::gf256` (modulus 0x11d, generator 2) and are described here by
//! named results.
use vstd::prelude::*;

verus! {

/// The distinguished primitive element of `gf256::gf256`.
pub const GENERATOR: u8 = 2;

/// The product of two field elements, as computed by `gf256::gf256`.
pub uninterp spec fn gf_mul_of(a: u8, b: u8) -> u8;

/// The quotient `a / b` of two field elements, for `b != 0`.
pub uninterp spec fn gf_div_of(a: u8, b: u8) -> u8;

/// The multiplicative inverse of a non-zero field element.
pub uninterp spec fn gf_recip_of(a: u8) -> u8;

/// `a` raised to the power `e`.
pub uninterp spec fn gf_pow_of(a: u8, e: u8) -> u8;

/// Field addition (and subtraction): bitwise xor.
pub open spec fn gf_add(a: u8, b: u8) -> u8 {
    a ^ b
}

/// Relies on `gf256::gf256`'s `*`: field multiplication, where zero
/// annihilates and one is the identity.
#[verifier::external_body]
pub(crate) fn gf_mul(a: u8, b: u8) -> (r: u8)
    ensures
        r == gf_mul_of(a, b),
        a == 0 || b == 0 ==> r == 0,
        a == 1 ==> r == b,
        b == 1 ==> r == a,
{
    (gf256::gf256::new(a) * gf256::gf256::new(b)).get()
}

/// Relies on `gf256::gf256::checked_div`: `None` exactly when the divisor
/// is zero.
#[verifier::external_body]
pub(crate) fn gf_checked_div(a: u8, b: u8) -> (r: Option<u8>)
    ensures
        r is None <==> b == 0,
        r matches Some(q) ==> q == gf_div_of(a, b),
{
    gf256::gf256::new(a).checked_div(gf256::gf256::new(b)).map(|q| q.get())
}

/// Relies on `gf256::gf256::recip`, which panics on zero.
#[verifier::external_body]
pub(crate) fn gf_recip(a: u8) -> (r: u8)
    requires
        a != 0,
    ensures
        r == gf_recip_of(a),
{
    gf256::gf256::new(a).recip().get()
}

/// Relies on `gf256::gf256::pow`: exponentiation by repeated
/// multiplication, so a power of a non-zero element is non-zero.
#[verifier::external_body]
pub(crate) fn gf_pow(a: u8, e: u8) -> (r: u8)
    ensures
        r == gf_pow_of(a, e),
        a != 0 ==> r != 0,
{
    gf256::gf256::new(a).pow(e).get()
}

} // verus!
