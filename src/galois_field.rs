//! The field GF(2^8) with the AES modulus `x^8 + x^4 + x^3 + x + 1`,
//! built on the binary polynomials of `polynomial`.
use vstd::prelude::*;
use crate::polynomial::{p16_divrem_spec, p16_mul_spec, P16};

verus! {

#[derive(Clone, Copy, PartialEq, Eq, Structural, Debug, Hash)]
pub struct Gf256Aes(pub u8);

/// The AES field modulus.
pub const AES_POLYNOMIAL: u16 = 0x11b;

/// The product in the AES field: the carry-less product reduced by the
/// modulus.
pub open spec fn gf_aes_mul_spec(a: u8, b: u8) -> u8 {
    p16_divrem_spec(p16_mul_spec(a as u16, b as u16), AES_POLYNOMIAL).1 as u8
}

/// Exponentiation by squaring in the AES field.
pub open spec fn gf_aes_pow_loop(x: u8, a: u8, e: u8) -> u8
    decreases e,
{
    let x2 = if e % 2 == 1 { gf_aes_mul_spec(x, a) } else { x };
    if e / 2 == 0 {
        x2
    } else {
        gf_aes_pow_loop(x2, gf_aes_mul_spec(a, a), (e / 2) as u8)
    }
}

pub open spec fn gf_aes_pow_spec(a: u8, e: u8) -> u8 {
    gf_aes_pow_loop(1, a, e)
}

/// The inverse of a non-zero element: `a^254`.
pub open spec fn gf_aes_recip_spec(a: u8) -> u8 {
    gf_aes_pow_spec(a, 254)
}

/// The quotient `a / b`: `a` times the inverse of `b`.
pub open spec fn gf_aes_div_spec(a: u8, b: u8) -> u8 {
    gf_aes_mul_spec(a, gf_aes_recip_spec(b))
}

/// A generator of the multiplicative group of the AES field.
pub const AES_GENERATOR: u8 = 0x03;

impl Gf256Aes {
    pub fn new(n: u8) -> (r: Gf256Aes)
        ensures
            r.0 == n,
    {
        Gf256Aes(n)
    }

    pub fn get(self) -> (r: u8)
        ensures
            r == self.0,
    {
        self.0
    }

    pub fn add(self, other: Gf256Aes) -> (r: Gf256Aes)
        ensures
            r.0 == self.0 ^ other.0,
    {
        Gf256Aes(self.0 ^ other.0)
    }

    pub fn sub(self, other: Gf256Aes) -> (r: Gf256Aes)
        ensures
            r.0 == self.0 ^ other.0,
    {
        Gf256Aes(self.0 ^ other.0)
    }

    pub fn naive_mul(self, other: Gf256Aes) -> (r: Gf256Aes)
        ensures
            r.0 == gf_aes_mul_spec(self.0, other.0),
    {
        let p = P16(self.0 as u16).naive_wrapping_mul(P16(other.0 as u16));
        Gf256Aes(p.naive_rem(P16(AES_POLYNOMIAL)).0 as u8)
    }

    pub fn pow(self, exp: u8) -> (r: Gf256Aes)
        ensures
            r.0 == gf_aes_pow_spec(self.0, exp),
    {
        let mut a = self;
        let mut e = exp;
        let mut x = Gf256Aes(1);
        loop
            invariant
                gf_aes_pow_loop(x.0, a.0, e) == gf_aes_pow_spec(self.0, exp),
            decreases e,
        {
            if e % 2 == 1 {
                x = x.naive_mul(a);
            }
            e = e / 2;
            if e == 0 {
                return x;
            }
            a = a.naive_mul(a);
        }
    }

    pub fn naive_checked_recip(self) -> (r: Option<Gf256Aes>)
        ensures
            self.0 == 0 ==> r is None,
            self.0 != 0 ==> r == Some(Gf256Aes(gf_aes_recip_spec(self.0))),
    {
        if self.0 == 0 {
            return None;
        }
        Some(self.pow(255 - 1))
    }

    pub fn naive_recip(self) -> (r: Gf256Aes)
        requires
            self.0 != 0,
        ensures
            r.0 == gf_aes_recip_spec(self.0),
    {
        match self.naive_checked_recip() {
            Some(x) => x,
            None => Gf256Aes(0),
        }
    }

    pub fn checked_recip(self) -> (r: Option<Gf256Aes>)
        ensures
            self.0 == 0 ==> r is None,
            self.0 != 0 ==> r == Some(Gf256Aes(gf_aes_recip_spec(self.0))),
    {
        self.naive_checked_recip()
    }

    pub fn recip(self) -> (r: Gf256Aes)
        requires
            self.0 != 0,
        ensures
            r.0 == gf_aes_recip_spec(self.0),
    {
        self.naive_recip()
    }

    pub fn mul(self, other: Gf256Aes) -> (r: Gf256Aes)
        ensures
            r.0 == gf_aes_mul_spec(self.0, other.0),
    {
        self.naive_mul(other)
    }

    pub fn naive_checked_div(self, other: Gf256Aes) -> (r: Option<Gf256Aes>)
        ensures
            other.0 == 0 ==> r is None,
            other.0 != 0 ==> r == Some(Gf256Aes(gf_aes_div_spec(self.0, other.0))),
    {
        match other.naive_checked_recip() {
            Some(other_recip) => Some(self.naive_mul(other_recip)),
            None => None,
        }
    }

    pub fn naive_div(self, other: Gf256Aes) -> (r: Gf256Aes)
        requires
            other.0 != 0,
        ensures
            r.0 == gf_aes_div_spec(self.0, other.0),
    {
        match self.naive_checked_div(other) {
            Some(x) => x,
            None => Gf256Aes(0),
        }
    }

    pub fn div(self, other: Gf256Aes) -> (r: Gf256Aes)
        requires
            other.0 != 0,
        ensures
            r.0 == gf_aes_div_spec(self.0, other.0),
    {
        self.naive_div(other)
    }
}

impl core::ops::Neg for Gf256Aes {
    type Output = Gf256Aes;

    fn neg(self) -> (r: Gf256Aes) {
        self
    }
}

impl vstd::std_specs::ops::NegSpecImpl for Gf256Aes {
    open spec fn obeys_neg_spec() -> bool {
        true
    }

    open spec fn neg_req(self) -> bool {
        true
    }

    open spec fn neg_spec(self) -> Gf256Aes {
        self
    }
}

impl core::ops::Not for Gf256Aes {
    type Output = Gf256Aes;

    fn not(self) -> (r: Gf256Aes) {
        Gf256Aes(!self.0)
    }
}

impl vstd::std_specs::ops::NotSpecImpl for Gf256Aes {
    open spec fn obeys_not_spec() -> bool {
        true
    }

    open spec fn not_req(self) -> bool {
        true
    }

    open spec fn not_spec(self) -> Gf256Aes {
        Gf256Aes(!self.0)
    }
}

impl core::ops::Neg for &Gf256Aes {
    type Output = Gf256Aes;

    fn neg(self) -> (r: Gf256Aes) {
        *self
    }
}

impl vstd::std_specs::ops::NegSpecImpl for &Gf256Aes {
    open spec fn obeys_neg_spec() -> bool {
        true
    }

    open spec fn neg_req(self) -> bool {
        true
    }

    open spec fn neg_spec(self) -> Gf256Aes {
        *self
    }
}

impl core::ops::Not for &Gf256Aes {
    type Output = Gf256Aes;

    fn not(self) -> (r: Gf256Aes) {
        Gf256Aes(!self.0)
    }
}

impl vstd::std_specs::ops::NotSpecImpl for &Gf256Aes {
    open spec fn obeys_not_spec() -> bool {
        true
    }

    open spec fn not_req(self) -> bool {
        true
    }

    open spec fn not_spec(self) -> Gf256Aes {
        Gf256Aes(!self.0)
    }
}

impl core::ops::Add<Gf256Aes> for Gf256Aes {
    type Output = Gf256Aes;

    fn add(self, other: Gf256Aes) -> (r: Gf256Aes) {
        Gf256Aes::add(self, other)
    }
}

impl vstd::std_specs::ops::AddSpecImpl<Gf256Aes> for Gf256Aes {
    open spec fn obeys_add_spec() -> bool {
        true
    }

    open spec fn add_req(self, other: Gf256Aes) -> bool {
        true
    }

    open spec fn add_spec(self, other: Gf256Aes) -> Gf256Aes {
        Gf256Aes(self.0 ^ other.0)
    }
}

impl core::ops::Add<Gf256Aes> for &Gf256Aes {
    type Output = Gf256Aes;

    fn add(self, other: Gf256Aes) -> (r: Gf256Aes) {
        Gf256Aes::add(*self, other)
    }
}

impl vstd::std_specs::ops::AddSpecImpl<Gf256Aes> for &Gf256Aes {
    open spec fn obeys_add_spec() -> bool {
        true
    }

    open spec fn add_req(self, other: Gf256Aes) -> bool {
        true
    }

    open spec fn add_spec(self, other: Gf256Aes) -> Gf256Aes {
        Gf256Aes(self.0 ^ other.0)
    }
}

impl core::ops::Add<&Gf256Aes> for Gf256Aes {
    type Output = Gf256Aes;

    fn add(self, other: &Gf256Aes) -> (r: Gf256Aes) {
        Gf256Aes::add(self, *other)
    }
}

impl vstd::std_specs::ops::AddSpecImpl<&Gf256Aes> for Gf256Aes {
    open spec fn obeys_add_spec() -> bool {
        true
    }

    open spec fn add_req(self, other: &Gf256Aes) -> bool {
        true
    }

    open spec fn add_spec(self, other: &Gf256Aes) -> Gf256Aes {
        Gf256Aes(self.0 ^ other.0)
    }
}

impl core::ops::Add<&Gf256Aes> for &Gf256Aes {
    type Output = Gf256Aes;

    fn add(self, other: &Gf256Aes) -> (r: Gf256Aes) {
        Gf256Aes::add(*self, *other)
    }
}

impl vstd::std_specs::ops::AddSpecImpl<&Gf256Aes> for &Gf256Aes {
    open spec fn obeys_add_spec() -> bool {
        true
    }

    open spec fn add_req(self, other: &Gf256Aes) -> bool {
        true
    }

    open spec fn add_spec(self, other: &Gf256Aes) -> Gf256Aes {
        Gf256Aes(self.0 ^ other.0)
    }
}

impl core::ops::AddAssign<Gf256Aes> for Gf256Aes {
    fn add_assign(&mut self, other: Gf256Aes) {
        *self = Gf256Aes::add(*self, other);
    }
}

impl core::ops::AddAssign<&Gf256Aes> for Gf256Aes {
    fn add_assign(&mut self, other: &Gf256Aes) {
        *self = Gf256Aes::add(*self, *other);
    }
}

impl core::ops::Sub<Gf256Aes> for Gf256Aes {
    type Output = Gf256Aes;

    fn sub(self, other: Gf256Aes) -> (r: Gf256Aes) {
        Gf256Aes::sub(self, other)
    }
}

impl vstd::std_specs::ops::SubSpecImpl<Gf256Aes> for Gf256Aes {
    open spec fn obeys_sub_spec() -> bool {
        true
    }

    open spec fn sub_req(self, other: Gf256Aes) -> bool {
        true
    }

    open spec fn sub_spec(self, other: Gf256Aes) -> Gf256Aes {
        Gf256Aes(self.0 ^ other.0)
    }
}

impl core::ops::Sub<Gf256Aes> for &Gf256Aes {
    type Output = Gf256Aes;

    fn sub(self, other: Gf256Aes) -> (r: Gf256Aes) {
        Gf256Aes::sub(*self, other)
    }
}

impl vstd::std_specs::ops::SubSpecImpl<Gf256Aes> for &Gf256Aes {
    open spec fn obeys_sub_spec() -> bool {
        true
    }

    open spec fn sub_req(self, other: Gf256Aes) -> bool {
        true
    }

    open spec fn sub_spec(self, other: Gf256Aes) -> Gf256Aes {
        Gf256Aes(self.0 ^ other.0)
    }
}

impl core::ops::Sub<&Gf256Aes> for Gf256Aes {
    type Output = Gf256Aes;

    fn sub(self, other: &Gf256Aes) -> (r: Gf256Aes) {
        Gf256Aes::sub(self, *other)
    }
}

impl vstd::std_specs::ops::SubSpecImpl<&Gf256Aes> for Gf256Aes {
    open spec fn obeys_sub_spec() -> bool {
        true
    }

    open spec fn sub_req(self, other: &Gf256Aes) -> bool {
        true
    }

    open spec fn sub_spec(self, other: &Gf256Aes) -> Gf256Aes {
        Gf256Aes(self.0 ^ other.0)
    }
}

impl core::ops::Sub<&Gf256Aes> for &Gf256Aes {
    type Output = Gf256Aes;

    fn sub(self, other: &Gf256Aes) -> (r: Gf256Aes) {
        Gf256Aes::sub(*self, *other)
    }
}

impl vstd::std_specs::ops::SubSpecImpl<&Gf256Aes> for &Gf256Aes {
    open spec fn obeys_sub_spec() -> bool {
        true
    }

    open spec fn sub_req(self, other: &Gf256Aes) -> bool {
        true
    }

    open spec fn sub_spec(self, other: &Gf256Aes) -> Gf256Aes {
        Gf256Aes(self.0 ^ other.0)
    }
}

impl core::ops::SubAssign<Gf256Aes> for Gf256Aes {
    fn sub_assign(&mut self, other: Gf256Aes) {
        *self = Gf256Aes::sub(*self, other);
    }
}

impl core::ops::SubAssign<&Gf256Aes> for Gf256Aes {
    fn sub_assign(&mut self, other: &Gf256Aes) {
        *self = Gf256Aes::sub(*self, *other);
    }
}

impl core::ops::Mul<Gf256Aes> for Gf256Aes {
    type Output = Gf256Aes;

    fn mul(self, other: Gf256Aes) -> (r: Gf256Aes) {
        Gf256Aes::mul(self, other)
    }
}

impl vstd::std_specs::ops::MulSpecImpl<Gf256Aes> for Gf256Aes {
    open spec fn obeys_mul_spec() -> bool {
        true
    }

    open spec fn mul_req(self, other: Gf256Aes) -> bool {
        true
    }

    open spec fn mul_spec(self, other: Gf256Aes) -> Gf256Aes {
        Gf256Aes(gf_aes_mul_spec(self.0, other.0))
    }
}

impl core::ops::Mul<Gf256Aes> for &Gf256Aes {
    type Output = Gf256Aes;

    fn mul(self, other: Gf256Aes) -> (r: Gf256Aes) {
        Gf256Aes::mul(*self, other)
    }
}

impl vstd::std_specs::ops::MulSpecImpl<Gf256Aes> for &Gf256Aes {
    open spec fn obeys_mul_spec() -> bool {
        true
    }

    open spec fn mul_req(self, other: Gf256Aes) -> bool {
        true
    }

    open spec fn mul_spec(self, other: Gf256Aes) -> Gf256Aes {
        Gf256Aes(gf_aes_mul_spec(self.0, other.0))
    }
}

impl core::ops::Mul<&Gf256Aes> for Gf256Aes {
    type Output = Gf256Aes;

    fn mul(self, other: &Gf256Aes) -> (r: Gf256Aes) {
        Gf256Aes::mul(self, *other)
    }
}

impl vstd::std_specs::ops::MulSpecImpl<&Gf256Aes> for Gf256Aes {
    open spec fn obeys_mul_spec() -> bool {
        true
    }

    open spec fn mul_req(self, other: &Gf256Aes) -> bool {
        true
    }

    open spec fn mul_spec(self, other: &Gf256Aes) -> Gf256Aes {
        Gf256Aes(gf_aes_mul_spec(self.0, other.0))
    }
}

impl core::ops::Mul<&Gf256Aes> for &Gf256Aes {
    type Output = Gf256Aes;

    fn mul(self, other: &Gf256Aes) -> (r: Gf256Aes) {
        Gf256Aes::mul(*self, *other)
    }
}

impl vstd::std_specs::ops::MulSpecImpl<&Gf256Aes> for &Gf256Aes {
    open spec fn obeys_mul_spec() -> bool {
        true
    }

    open spec fn mul_req(self, other: &Gf256Aes) -> bool {
        true
    }

    open spec fn mul_spec(self, other: &Gf256Aes) -> Gf256Aes {
        Gf256Aes(gf_aes_mul_spec(self.0, other.0))
    }
}

impl core::ops::MulAssign<Gf256Aes> for Gf256Aes {
    fn mul_assign(&mut self, other: Gf256Aes) {
        *self = Gf256Aes::mul(*self, other);
    }
}

impl core::ops::MulAssign<&Gf256Aes> for Gf256Aes {
    fn mul_assign(&mut self, other: &Gf256Aes) {
        *self = Gf256Aes::mul(*self, *other);
    }
}

impl core::ops::Div<Gf256Aes> for Gf256Aes {
    type Output = Gf256Aes;

    fn div(self, other: Gf256Aes) -> (r: Gf256Aes) {
        Gf256Aes::div(self, other)
    }
}

impl vstd::std_specs::ops::DivSpecImpl<Gf256Aes> for Gf256Aes {
    open spec fn obeys_div_spec() -> bool {
        true
    }

    open spec fn div_req(self, other: Gf256Aes) -> bool {
        other.0 != 0
    }

    open spec fn div_spec(self, other: Gf256Aes) -> Gf256Aes {
        Gf256Aes(gf_aes_div_spec(self.0, other.0))
    }
}

impl core::ops::Div<Gf256Aes> for &Gf256Aes {
    type Output = Gf256Aes;

    fn div(self, other: Gf256Aes) -> (r: Gf256Aes) {
        Gf256Aes::div(*self, other)
    }
}

impl vstd::std_specs::ops::DivSpecImpl<Gf256Aes> for &Gf256Aes {
    open spec fn obeys_div_spec() -> bool {
        true
    }

    open spec fn div_req(self, other: Gf256Aes) -> bool {
        other.0 != 0
    }

    open spec fn div_spec(self, other: Gf256Aes) -> Gf256Aes {
        Gf256Aes(gf_aes_div_spec(self.0, other.0))
    }
}

impl core::ops::Div<&Gf256Aes> for Gf256Aes {
    type Output = Gf256Aes;

    fn div(self, other: &Gf256Aes) -> (r: Gf256Aes) {
        Gf256Aes::div(self, *other)
    }
}

impl vstd::std_specs::ops::DivSpecImpl<&Gf256Aes> for Gf256Aes {
    open spec fn obeys_div_spec() -> bool {
        true
    }

    open spec fn div_req(self, other: &Gf256Aes) -> bool {
        other.0 != 0
    }

    open spec fn div_spec(self, other: &Gf256Aes) -> Gf256Aes {
        Gf256Aes(gf_aes_div_spec(self.0, other.0))
    }
}

impl core::ops::Div<&Gf256Aes> for &Gf256Aes {
    type Output = Gf256Aes;

    fn div(self, other: &Gf256Aes) -> (r: Gf256Aes) {
        Gf256Aes::div(*self, *other)
    }
}

impl vstd::std_specs::ops::DivSpecImpl<&Gf256Aes> for &Gf256Aes {
    open spec fn obeys_div_spec() -> bool {
        true
    }

    open spec fn div_req(self, other: &Gf256Aes) -> bool {
        other.0 != 0
    }

    open spec fn div_spec(self, other: &Gf256Aes) -> Gf256Aes {
        Gf256Aes(gf_aes_div_spec(self.0, other.0))
    }
}

} // verus!
