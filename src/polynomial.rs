//! Binary polynomials held in machine words: bit `i` is the coefficient of
//! `x^i`. Addition is xor, and multiplication is carry-less, taken over the
//! low eight bits of the left operand and truncated to the word.
use vstd::prelude::*;

verus! {

// ---------------------------------------------------------------------------
// P8: polynomials of degree below 8
// ---------------------------------------------------------------------------

#[derive(Clone, Copy, PartialEq, Eq, Structural, Debug, Hash)]
pub struct P8(pub u8);

/// The carry-less product of the low `i` bits of `a` with `b`, truncated to
/// 8 bits.
pub open spec fn p8_xmul(a: u8, b: u8, i: nat) -> u8
    decreases i,
{
    if i == 0 {
        0
    } else {
        let x = p8_xmul(a, b, (i - 1) as nat);
        if (a >> ((i - 1) as u8)) & 1 == 1 {
            x ^ ((b << ((i - 1) as u8)) as u8)
        } else {
            x
        }
    }
}

/// The product that `P8::mul` computes.
pub open spec fn p8_mul_spec(a: u8, b: u8) -> u8 {
    p8_xmul(a, b, 8)
}

/// Exponentiation by squaring: the accumulator `x` times `a^e`, squaring
/// `a` and halving `e` at each step.
pub open spec fn p8_pow_loop(x: u8, a: u8, e: u8) -> u8
    decreases e,
{
    let x2 = if e % 2 == 1 { p8_mul_spec(x, a) } else { x };
    if e / 2 == 0 {
        x2
    } else {
        p8_pow_loop(x2, p8_mul_spec(a, a), (e / 2) as u8)
    }
}

pub open spec fn p8_pow_spec(a: u8, e: u8) -> u8 {
    p8_pow_loop(1, a, e)
}

/// The number of significant bits of `x` among its low `r` bits (its degree
/// plus one, or zero for the zero polynomial).
pub open spec fn p8_bit_len(x: u8, r: nat) -> nat
    decreases r,
{
    if r == 0 {
        0
    } else if (x >> ((r - 1) as u8)) & 1 == 1 {
        r
    } else {
        p8_bit_len(x, (r - 1) as nat)
    }
}

/// Long division of `a` by `b` from quotient `x`, for at most `fuel` steps:
/// while `a` has at least the degree of `b`, the shifted divisor is
/// subtracted and the matching quotient bit set. Returns (quotient,
/// remainder).
pub open spec fn p8_divrem_loop(a: u8, b: u8, x: u8, fuel: nat) -> (u8, u8)
    decreases fuel,
{
    let la = p8_bit_len(a, 8);
    let lb = p8_bit_len(b, 8);
    if fuel == 0 || lb == 0 || la < lb {
        (x, a)
    } else {
        let s = (la - lb) as u8;
        p8_divrem_loop(
            a ^ ((b << s) as u8),
            b,
            x ^ (((1 as u8) << s) as u8),
            (fuel - 1) as nat,
        )
    }
}

/// (quotient, remainder) of `a` divided by `b`.
pub open spec fn p8_divrem_spec(a: u8, b: u8) -> (u8, u8) {
    p8_divrem_loop(a, b, 0, 8 + 1)
}

fn p8_bit_len_exec(x: u8) -> (r: u32)
    ensures
        r as nat == p8_bit_len(x, 8),
        r <= 8,
{
    let mut r: u32 = 8;
    while r > 0 && (x >> ((r - 1) as u8)) & 1 != 1
        invariant
            r <= 8,
            p8_bit_len(x, 8) == p8_bit_len(x, r as nat),
        decreases r,
    {
        r -= 1;
    }
    r
}

fn p8_divrem(a: u8, b: u8) -> (r: (u8, u8))
    ensures
        r == p8_divrem_spec(a, b),
{
    let mut a = a;
    let ghost a0 = a;
    let mut x: u8 = 0;
    let mut fuel: u32 = 8 + 1;
    let lb = p8_bit_len_exec(b);
    let mut la = p8_bit_len_exec(a);
    while fuel > 0 && lb > 0 && la >= lb
        invariant
            fuel <= 8 + 1,
            lb as nat == p8_bit_len(b, 8),
            la as nat == p8_bit_len(a, 8),
            lb <= 8,
            la <= 8,
            p8_divrem_spec(a0, b) == p8_divrem_loop(a, b, x, fuel as nat),
        decreases fuel,
    {
        let s = (la - lb) as u8;
        x = x ^ (1 << s);
        a = a ^ (b << s);
        fuel -= 1;
        la = p8_bit_len_exec(a);
    }
    (x, a)
}

impl P8 {
    pub fn new(v: u8) -> (r: P8)
        ensures
            r.0 == v,
    {
        P8(v)
    }

    pub fn get(self) -> (r: u8)
        ensures
            r == self.0,
    {
        self.0
    }

    pub fn add(self, other: P8) -> (r: P8)
        ensures
            r.0 == self.0 ^ other.0,
    {
        P8(self.0 ^ other.0)
    }

    pub fn sub(self, other: P8) -> (r: P8)
        ensures
            r.0 == self.0 ^ other.0,
    {
        P8(self.0 ^ other.0)
    }

    pub fn naive_wrapping_mul(self, other: P8) -> (r: P8)
        ensures
            r.0 == p8_mul_spec(self.0, other.0),
    {
        let a = self.0;
        let b = other.0;
        let mut x: u8 = 0;
        let mut i: u8 = 0;
        while i < 8
            invariant
                i <= 8,
                x == p8_xmul(a, b, i as nat),
            decreases 8 - i,
        {
            if (a >> i) & 1 == 1 {
                x = x ^ (b << i);
            }
            i += 1;
        }
        P8(x)
    }

    pub fn mul(self, other: P8) -> (r: P8)
        ensures
            r.0 == p8_mul_spec(self.0, other.0),
    {
        self.naive_wrapping_mul(other)
    }

    pub fn pow(self, exp: u8) -> (r: P8)
        ensures
            r.0 == p8_pow_spec(self.0, exp),
    {
        let mut a = self;
        let mut e = exp;
        let mut x = P8(1);
        loop
            invariant
                p8_pow_loop(x.0, a.0, e) == p8_pow_spec(self.0, exp),
            decreases e,
        {
            if e % 2 == 1 {
                x = x.mul(a);
            }
            e = e / 2;
            if e == 0 {
                return x;
            }
            a = a.mul(a);
        }
    }

    pub fn naive_checked_div(self, other: P8) -> (r: Option<P8>)
        ensures
            other.0 == 0 ==> r is None,
            other.0 != 0 ==> r == Some(P8(p8_divrem_spec(self.0, other.0).0)),
    {
        if other.0 == 0 {
            None
        } else {
            Some(P8(p8_divrem(self.0, other.0).0))
        }
    }

    pub fn div(self, other: P8) -> (r: P8)
        requires
            other.0 != 0,
        ensures
            r.0 == p8_divrem_spec(self.0, other.0).0,
    {
        match self.naive_checked_div(other) {
            Some(x) => x,
            None => P8(0),
        }
    }

    pub fn naive_checked_rem(self, other: P8) -> (r: Option<P8>)
        ensures
            other.0 == 0 ==> r is None,
            other.0 != 0 ==> r == Some(P8(p8_divrem_spec(self.0, other.0).1)),
    {
        if other.0 == 0 {
            None
        } else {
            Some(P8(p8_divrem(self.0, other.0).1))
        }
    }

    pub fn naive_rem(self, other: P8) -> (r: P8)
        requires
            other.0 != 0,
        ensures
            r.0 == p8_divrem_spec(self.0, other.0).1,
    {
        match self.naive_checked_rem(other) {
            Some(x) => x,
            None => P8(0),
        }
    }
}

impl core::convert::From<P8> for u8 {
    fn from(x: P8) -> (r: u8) {
        x.0
    }
}

impl vstd::std_specs::convert::FromSpecImpl<P8> for u8 {
    open spec fn obeys_from_spec() -> bool {
        true
    }

    open spec fn from_spec(x: P8) -> u8 {
        x.0
    }
}

impl core::ops::Not for P8 {
    type Output = P8;

    fn not(self) -> (r: P8) {
        P8(!self.0)
    }
}

impl vstd::std_specs::ops::NotSpecImpl for P8 {
    open spec fn obeys_not_spec() -> bool {
        true
    }

    open spec fn not_req(self) -> bool {
        true
    }

    open spec fn not_spec(self) -> P8 {
        P8(!self.0)
    }
}

impl core::ops::Not for &P8 {
    type Output = P8;

    fn not(self) -> (r: P8) {
        P8(!self.0)
    }
}

impl vstd::std_specs::ops::NotSpecImpl for &P8 {
    open spec fn obeys_not_spec() -> bool {
        true
    }

    open spec fn not_req(self) -> bool {
        true
    }

    open spec fn not_spec(self) -> P8 {
        P8(!self.0)
    }
}

impl core::ops::Add<P8> for P8 {
    type Output = P8;

    fn add(self, other: P8) -> (r: P8) {
        P8::add(self, other)
    }
}

impl vstd::std_specs::ops::AddSpecImpl<P8> for P8 {
    open spec fn obeys_add_spec() -> bool {
        true
    }

    open spec fn add_req(self, other: P8) -> bool {
        true
    }

    open spec fn add_spec(self, other: P8) -> P8 {
        P8(self.0 ^ other.0)
    }
}

impl core::ops::Add<P8> for &P8 {
    type Output = P8;

    fn add(self, other: P8) -> (r: P8) {
        P8::add(*self, other)
    }
}

impl vstd::std_specs::ops::AddSpecImpl<P8> for &P8 {
    open spec fn obeys_add_spec() -> bool {
        true
    }

    open spec fn add_req(self, other: P8) -> bool {
        true
    }

    open spec fn add_spec(self, other: P8) -> P8 {
        P8(self.0 ^ other.0)
    }
}

impl core::ops::Add<&P8> for P8 {
    type Output = P8;

    fn add(self, other: &P8) -> (r: P8) {
        P8::add(self, *other)
    }
}

impl vstd::std_specs::ops::AddSpecImpl<&P8> for P8 {
    open spec fn obeys_add_spec() -> bool {
        true
    }

    open spec fn add_req(self, other: &P8) -> bool {
        true
    }

    open spec fn add_spec(self, other: &P8) -> P8 {
        P8(self.0 ^ other.0)
    }
}

impl core::ops::Add<&P8> for &P8 {
    type Output = P8;

    fn add(self, other: &P8) -> (r: P8) {
        P8::add(*self, *other)
    }
}

impl vstd::std_specs::ops::AddSpecImpl<&P8> for &P8 {
    open spec fn obeys_add_spec() -> bool {
        true
    }

    open spec fn add_req(self, other: &P8) -> bool {
        true
    }

    open spec fn add_spec(self, other: &P8) -> P8 {
        P8(self.0 ^ other.0)
    }
}

impl core::ops::AddAssign<P8> for P8 {
    fn add_assign(&mut self, other: P8) {
        *self = P8::add(*self, other);
    }
}

impl core::ops::AddAssign<&P8> for P8 {
    fn add_assign(&mut self, other: &P8) {
        *self = P8::add(*self, *other);
    }
}

impl core::ops::Sub<P8> for P8 {
    type Output = P8;

    fn sub(self, other: P8) -> (r: P8) {
        P8::sub(self, other)
    }
}

impl vstd::std_specs::ops::SubSpecImpl<P8> for P8 {
    open spec fn obeys_sub_spec() -> bool {
        true
    }

    open spec fn sub_req(self, other: P8) -> bool {
        true
    }

    open spec fn sub_spec(self, other: P8) -> P8 {
        P8(self.0 ^ other.0)
    }
}

impl core::ops::Sub<P8> for &P8 {
    type Output = P8;

    fn sub(self, other: P8) -> (r: P8) {
        P8::sub(*self, other)
    }
}

impl vstd::std_specs::ops::SubSpecImpl<P8> for &P8 {
    open spec fn obeys_sub_spec() -> bool {
        true
    }

    open spec fn sub_req(self, other: P8) -> bool {
        true
    }

    open spec fn sub_spec(self, other: P8) -> P8 {
        P8(self.0 ^ other.0)
    }
}

impl core::ops::Sub<&P8> for P8 {
    type Output = P8;

    fn sub(self, other: &P8) -> (r: P8) {
        P8::sub(self, *other)
    }
}

impl vstd::std_specs::ops::SubSpecImpl<&P8> for P8 {
    open spec fn obeys_sub_spec() -> bool {
        true
    }

    open spec fn sub_req(self, other: &P8) -> bool {
        true
    }

    open spec fn sub_spec(self, other: &P8) -> P8 {
        P8(self.0 ^ other.0)
    }
}

impl core::ops::Sub<&P8> for &P8 {
    type Output = P8;

    fn sub(self, other: &P8) -> (r: P8) {
        P8::sub(*self, *other)
    }
}

impl vstd::std_specs::ops::SubSpecImpl<&P8> for &P8 {
    open spec fn obeys_sub_spec() -> bool {
        true
    }

    open spec fn sub_req(self, other: &P8) -> bool {
        true
    }

    open spec fn sub_spec(self, other: &P8) -> P8 {
        P8(self.0 ^ other.0)
    }
}

impl core::ops::SubAssign<P8> for P8 {
    fn sub_assign(&mut self, other: P8) {
        *self = P8::sub(*self, other);
    }
}

impl core::ops::SubAssign<&P8> for P8 {
    fn sub_assign(&mut self, other: &P8) {
        *self = P8::sub(*self, *other);
    }
}

impl core::ops::Mul<P8> for P8 {
    type Output = P8;

    fn mul(self, other: P8) -> (r: P8) {
        P8::mul(self, other)
    }
}

impl vstd::std_specs::ops::MulSpecImpl<P8> for P8 {
    open spec fn obeys_mul_spec() -> bool {
        true
    }

    open spec fn mul_req(self, other: P8) -> bool {
        true
    }

    open spec fn mul_spec(self, other: P8) -> P8 {
        P8(p8_mul_spec(self.0, other.0))
    }
}

impl core::ops::Mul<P8> for &P8 {
    type Output = P8;

    fn mul(self, other: P8) -> (r: P8) {
        P8::mul(*self, other)
    }
}

impl vstd::std_specs::ops::MulSpecImpl<P8> for &P8 {
    open spec fn obeys_mul_spec() -> bool {
        true
    }

    open spec fn mul_req(self, other: P8) -> bool {
        true
    }

    open spec fn mul_spec(self, other: P8) -> P8 {
        P8(p8_mul_spec(self.0, other.0))
    }
}

impl core::ops::Mul<&P8> for P8 {
    type Output = P8;

    fn mul(self, other: &P8) -> (r: P8) {
        P8::mul(self, *other)
    }
}

impl vstd::std_specs::ops::MulSpecImpl<&P8> for P8 {
    open spec fn obeys_mul_spec() -> bool {
        true
    }

    open spec fn mul_req(self, other: &P8) -> bool {
        true
    }

    open spec fn mul_spec(self, other: &P8) -> P8 {
        P8(p8_mul_spec(self.0, other.0))
    }
}

impl core::ops::Mul<&P8> for &P8 {
    type Output = P8;

    fn mul(self, other: &P8) -> (r: P8) {
        P8::mul(*self, *other)
    }
}

impl vstd::std_specs::ops::MulSpecImpl<&P8> for &P8 {
    open spec fn obeys_mul_spec() -> bool {
        true
    }

    open spec fn mul_req(self, other: &P8) -> bool {
        true
    }

    open spec fn mul_spec(self, other: &P8) -> P8 {
        P8(p8_mul_spec(self.0, other.0))
    }
}

impl core::ops::MulAssign<P8> for P8 {
    fn mul_assign(&mut self, other: P8) {
        *self = P8::mul(*self, other);
    }
}

impl core::ops::MulAssign<&P8> for P8 {
    fn mul_assign(&mut self, other: &P8) {
        *self = P8::mul(*self, *other);
    }
}

impl core::ops::Div<P8> for P8 {
    type Output = P8;

    fn div(self, other: P8) -> (r: P8) {
        P8::div(self, other)
    }
}

impl vstd::std_specs::ops::DivSpecImpl<P8> for P8 {
    open spec fn obeys_div_spec() -> bool {
        true
    }

    open spec fn div_req(self, other: P8) -> bool {
        other.0 != 0
    }

    open spec fn div_spec(self, other: P8) -> P8 {
        P8(p8_divrem_spec(self.0, other.0).0)
    }
}

impl core::ops::Div<P8> for &P8 {
    type Output = P8;

    fn div(self, other: P8) -> (r: P8) {
        P8::div(*self, other)
    }
}

impl vstd::std_specs::ops::DivSpecImpl<P8> for &P8 {
    open spec fn obeys_div_spec() -> bool {
        true
    }

    open spec fn div_req(self, other: P8) -> bool {
        other.0 != 0
    }

    open spec fn div_spec(self, other: P8) -> P8 {
        P8(p8_divrem_spec(self.0, other.0).0)
    }
}

impl core::ops::Div<&P8> for P8 {
    type Output = P8;

    fn div(self, other: &P8) -> (r: P8) {
        P8::div(self, *other)
    }
}

impl vstd::std_specs::ops::DivSpecImpl<&P8> for P8 {
    open spec fn obeys_div_spec() -> bool {
        true
    }

    open spec fn div_req(self, other: &P8) -> bool {
        other.0 != 0
    }

    open spec fn div_spec(self, other: &P8) -> P8 {
        P8(p8_divrem_spec(self.0, other.0).0)
    }
}

impl core::ops::Div<&P8> for &P8 {
    type Output = P8;

    fn div(self, other: &P8) -> (r: P8) {
        P8::div(*self, *other)
    }
}

impl vstd::std_specs::ops::DivSpecImpl<&P8> for &P8 {
    open spec fn obeys_div_spec() -> bool {
        true
    }

    open spec fn div_req(self, other: &P8) -> bool {
        other.0 != 0
    }

    open spec fn div_spec(self, other: &P8) -> P8 {
        P8(p8_divrem_spec(self.0, other.0).0)
    }
}

impl core::ops::Rem<P8> for P8 {
    type Output = P8;

    fn rem(self, other: P8) -> (r: P8) {
        P8::naive_rem(self, other)
    }
}

impl vstd::std_specs::ops::RemSpecImpl<P8> for P8 {
    open spec fn obeys_rem_spec() -> bool {
        true
    }

    open spec fn rem_req(self, other: P8) -> bool {
        other.0 != 0
    }

    open spec fn rem_spec(self, other: P8) -> P8 {
        P8(p8_divrem_spec(self.0, other.0).1)
    }
}

impl core::ops::Rem<P8> for &P8 {
    type Output = P8;

    fn rem(self, other: P8) -> (r: P8) {
        P8::naive_rem(*self, other)
    }
}

impl vstd::std_specs::ops::RemSpecImpl<P8> for &P8 {
    open spec fn obeys_rem_spec() -> bool {
        true
    }

    open spec fn rem_req(self, other: P8) -> bool {
        other.0 != 0
    }

    open spec fn rem_spec(self, other: P8) -> P8 {
        P8(p8_divrem_spec(self.0, other.0).1)
    }
}

impl core::ops::Rem<&P8> for P8 {
    type Output = P8;

    fn rem(self, other: &P8) -> (r: P8) {
        P8::naive_rem(self, *other)
    }
}

impl vstd::std_specs::ops::RemSpecImpl<&P8> for P8 {
    open spec fn obeys_rem_spec() -> bool {
        true
    }

    open spec fn rem_req(self, other: &P8) -> bool {
        other.0 != 0
    }

    open spec fn rem_spec(self, other: &P8) -> P8 {
        P8(p8_divrem_spec(self.0, other.0).1)
    }
}

impl core::ops::Rem<&P8> for &P8 {
    type Output = P8;

    fn rem(self, other: &P8) -> (r: P8) {
        P8::naive_rem(*self, *other)
    }
}

impl vstd::std_specs::ops::RemSpecImpl<&P8> for &P8 {
    open spec fn obeys_rem_spec() -> bool {
        true
    }

    open spec fn rem_req(self, other: &P8) -> bool {
        other.0 != 0
    }

    open spec fn rem_spec(self, other: &P8) -> P8 {
        P8(p8_divrem_spec(self.0, other.0).1)
    }
}

// ---------------------------------------------------------------------------
// P16: polynomials of degree below 16
// ---------------------------------------------------------------------------

#[derive(Clone, Copy, PartialEq, Eq, Structural, Debug, Hash)]
pub struct P16(pub u16);

/// The carry-less product of the low `i` bits of `a` with `b`, truncated to
/// 16 bits.
pub open spec fn p16_xmul(a: u16, b: u16, i: nat) -> u16
    decreases i,
{
    if i == 0 {
        0
    } else {
        let x = p16_xmul(a, b, (i - 1) as nat);
        if (a >> ((i - 1) as u16)) & 1 == 1 {
            x ^ ((b << ((i - 1) as u16)) as u16)
        } else {
            x
        }
    }
}

/// The product that `P16::mul` computes.
pub open spec fn p16_mul_spec(a: u16, b: u16) -> u16 {
    p16_xmul(a, b, 8)
}

/// Exponentiation by squaring: the accumulator `x` times `a^e`, squaring
/// `a` and halving `e` at each step.
pub open spec fn p16_pow_loop(x: u16, a: u16, e: u16) -> u16
    decreases e,
{
    let x2 = if e % 2 == 1 { p16_mul_spec(x, a) } else { x };
    if e / 2 == 0 {
        x2
    } else {
        p16_pow_loop(x2, p16_mul_spec(a, a), (e / 2) as u16)
    }
}

pub open spec fn p16_pow_spec(a: u16, e: u16) -> u16 {
    p16_pow_loop(1, a, e)
}

/// The number of significant bits of `x` among its low `r` bits (its degree
/// plus one, or zero for the zero polynomial).
pub open spec fn p16_bit_len(x: u16, r: nat) -> nat
    decreases r,
{
    if r == 0 {
        0
    } else if (x >> ((r - 1) as u16)) & 1 == 1 {
        r
    } else {
        p16_bit_len(x, (r - 1) as nat)
    }
}

/// Long division of `a` by `b` from quotient `x`, for at most `fuel` steps:
/// while `a` has at least the degree of `b`, the shifted divisor is
/// subtracted and the matching quotient bit set. Returns (quotient,
/// remainder).
pub open spec fn p16_divrem_loop(a: u16, b: u16, x: u16, fuel: nat) -> (u16, u16)
    decreases fuel,
{
    let la = p16_bit_len(a, 16);
    let lb = p16_bit_len(b, 16);
    if fuel == 0 || lb == 0 || la < lb {
        (x, a)
    } else {
        let s = (la - lb) as u16;
        p16_divrem_loop(
            a ^ ((b << s) as u16),
            b,
            x ^ (((1 as u16) << s) as u16),
            (fuel - 1) as nat,
        )
    }
}

/// (quotient, remainder) of `a` divided by `b`.
pub open spec fn p16_divrem_spec(a: u16, b: u16) -> (u16, u16) {
    p16_divrem_loop(a, b, 0, 16 + 1)
}

fn p16_bit_len_exec(x: u16) -> (r: u32)
    ensures
        r as nat == p16_bit_len(x, 16),
        r <= 16,
{
    let mut r: u32 = 16;
    while r > 0 && (x >> ((r - 1) as u16)) & 1 != 1
        invariant
            r <= 16,
            p16_bit_len(x, 16) == p16_bit_len(x, r as nat),
        decreases r,
    {
        r -= 1;
    }
    r
}

fn p16_divrem(a: u16, b: u16) -> (r: (u16, u16))
    ensures
        r == p16_divrem_spec(a, b),
{
    let mut a = a;
    let ghost a0 = a;
    let mut x: u16 = 0;
    let mut fuel: u32 = 16 + 1;
    let lb = p16_bit_len_exec(b);
    let mut la = p16_bit_len_exec(a);
    while fuel > 0 && lb > 0 && la >= lb
        invariant
            fuel <= 16 + 1,
            lb as nat == p16_bit_len(b, 16),
            la as nat == p16_bit_len(a, 16),
            lb <= 16,
            la <= 16,
            p16_divrem_spec(a0, b) == p16_divrem_loop(a, b, x, fuel as nat),
        decreases fuel,
    {
        let s = (la - lb) as u16;
        x = x ^ (1 << s);
        a = a ^ (b << s);
        fuel -= 1;
        la = p16_bit_len_exec(a);
    }
    (x, a)
}

impl P16 {
    pub fn new(v: u16) -> (r: P16)
        ensures
            r.0 == v,
    {
        P16(v)
    }

    pub fn get(self) -> (r: u16)
        ensures
            r == self.0,
    {
        self.0
    }

    pub fn add(self, other: P16) -> (r: P16)
        ensures
            r.0 == self.0 ^ other.0,
    {
        P16(self.0 ^ other.0)
    }

    pub fn sub(self, other: P16) -> (r: P16)
        ensures
            r.0 == self.0 ^ other.0,
    {
        P16(self.0 ^ other.0)
    }

    pub fn naive_wrapping_mul(self, other: P16) -> (r: P16)
        ensures
            r.0 == p16_mul_spec(self.0, other.0),
    {
        let a = self.0;
        let b = other.0;
        let mut x: u16 = 0;
        let mut i: u16 = 0;
        while i < 8
            invariant
                i <= 8,
                x == p16_xmul(a, b, i as nat),
            decreases 8 - i,
        {
            if (a >> i) & 1 == 1 {
                x = x ^ (b << i);
            }
            i += 1;
        }
        P16(x)
    }

    pub fn mul(self, other: P16) -> (r: P16)
        ensures
            r.0 == p16_mul_spec(self.0, other.0),
    {
        self.naive_wrapping_mul(other)
    }

    pub fn pow(self, exp: u16) -> (r: P16)
        ensures
            r.0 == p16_pow_spec(self.0, exp),
    {
        let mut a = self;
        let mut e = exp;
        let mut x = P16(1);
        loop
            invariant
                p16_pow_loop(x.0, a.0, e) == p16_pow_spec(self.0, exp),
            decreases e,
        {
            if e % 2 == 1 {
                x = x.mul(a);
            }
            e = e / 2;
            if e == 0 {
                return x;
            }
            a = a.mul(a);
        }
    }

    pub fn naive_checked_div(self, other: P16) -> (r: Option<P16>)
        ensures
            other.0 == 0 ==> r is None,
            other.0 != 0 ==> r == Some(P16(p16_divrem_spec(self.0, other.0).0)),
    {
        if other.0 == 0 {
            None
        } else {
            Some(P16(p16_divrem(self.0, other.0).0))
        }
    }

    pub fn div(self, other: P16) -> (r: P16)
        requires
            other.0 != 0,
        ensures
            r.0 == p16_divrem_spec(self.0, other.0).0,
    {
        match self.naive_checked_div(other) {
            Some(x) => x,
            None => P16(0),
        }
    }

    pub fn naive_checked_rem(self, other: P16) -> (r: Option<P16>)
        ensures
            other.0 == 0 ==> r is None,
            other.0 != 0 ==> r == Some(P16(p16_divrem_spec(self.0, other.0).1)),
    {
        if other.0 == 0 {
            None
        } else {
            Some(P16(p16_divrem(self.0, other.0).1))
        }
    }

    pub fn naive_rem(self, other: P16) -> (r: P16)
        requires
            other.0 != 0,
        ensures
            r.0 == p16_divrem_spec(self.0, other.0).1,
    {
        match self.naive_checked_rem(other) {
            Some(x) => x,
            None => P16(0),
        }
    }
}

impl core::convert::From<P16> for u16 {
    fn from(x: P16) -> (r: u16) {
        x.0
    }
}

impl vstd::std_specs::convert::FromSpecImpl<P16> for u16 {
    open spec fn obeys_from_spec() -> bool {
        true
    }

    open spec fn from_spec(x: P16) -> u16 {
        x.0
    }
}

impl core::ops::Not for P16 {
    type Output = P16;

    fn not(self) -> (r: P16) {
        P16(!self.0)
    }
}

impl vstd::std_specs::ops::NotSpecImpl for P16 {
    open spec fn obeys_not_spec() -> bool {
        true
    }

    open spec fn not_req(self) -> bool {
        true
    }

    open spec fn not_spec(self) -> P16 {
        P16(!self.0)
    }
}

impl core::ops::Not for &P16 {
    type Output = P16;

    fn not(self) -> (r: P16) {
        P16(!self.0)
    }
}

impl vstd::std_specs::ops::NotSpecImpl for &P16 {
    open spec fn obeys_not_spec() -> bool {
        true
    }

    open spec fn not_req(self) -> bool {
        true
    }

    open spec fn not_spec(self) -> P16 {
        P16(!self.0)
    }
}

impl core::ops::Add<P16> for P16 {
    type Output = P16;

    fn add(self, other: P16) -> (r: P16) {
        P16::add(self, other)
    }
}

impl vstd::std_specs::ops::AddSpecImpl<P16> for P16 {
    open spec fn obeys_add_spec() -> bool {
        true
    }

    open spec fn add_req(self, other: P16) -> bool {
        true
    }

    open spec fn add_spec(self, other: P16) -> P16 {
        P16(self.0 ^ other.0)
    }
}

impl core::ops::Add<P16> for &P16 {
    type Output = P16;

    fn add(self, other: P16) -> (r: P16) {
        P16::add(*self, other)
    }
}

impl vstd::std_specs::ops::AddSpecImpl<P16> for &P16 {
    open spec fn obeys_add_spec() -> bool {
        true
    }

    open spec fn add_req(self, other: P16) -> bool {
        true
    }

    open spec fn add_spec(self, other: P16) -> P16 {
        P16(self.0 ^ other.0)
    }
}

impl core::ops::Add<&P16> for P16 {
    type Output = P16;

    fn add(self, other: &P16) -> (r: P16) {
        P16::add(self, *other)
    }
}

impl vstd::std_specs::ops::AddSpecImpl<&P16> for P16 {
    open spec fn obeys_add_spec() -> bool {
        true
    }

    open spec fn add_req(self, other: &P16) -> bool {
        true
    }

    open spec fn add_spec(self, other: &P16) -> P16 {
        P16(self.0 ^ other.0)
    }
}

impl core::ops::Add<&P16> for &P16 {
    type Output = P16;

    fn add(self, other: &P16) -> (r: P16) {
        P16::add(*self, *other)
    }
}

impl vstd::std_specs::ops::AddSpecImpl<&P16> for &P16 {
    open spec fn obeys_add_spec() -> bool {
        true
    }

    open spec fn add_req(self, other: &P16) -> bool {
        true
    }

    open spec fn add_spec(self, other: &P16) -> P16 {
        P16(self.0 ^ other.0)
    }
}

impl core::ops::AddAssign<P16> for P16 {
    fn add_assign(&mut self, other: P16) {
        *self = P16::add(*self, other);
    }
}

impl core::ops::AddAssign<&P16> for P16 {
    fn add_assign(&mut self, other: &P16) {
        *self = P16::add(*self, *other);
    }
}

impl core::ops::Sub<P16> for P16 {
    type Output = P16;

    fn sub(self, other: P16) -> (r: P16) {
        P16::sub(self, other)
    }
}

impl vstd::std_specs::ops::SubSpecImpl<P16> for P16 {
    open spec fn obeys_sub_spec() -> bool {
        true
    }

    open spec fn sub_req(self, other: P16) -> bool {
        true
    }

    open spec fn sub_spec(self, other: P16) -> P16 {
        P16(self.0 ^ other.0)
    }
}

impl core::ops::Sub<P16> for &P16 {
    type Output = P16;

    fn sub(self, other: P16) -> (r: P16) {
        P16::sub(*self, other)
    }
}

impl vstd::std_specs::ops::SubSpecImpl<P16> for &P16 {
    open spec fn obeys_sub_spec() -> bool {
        true
    }

    open spec fn sub_req(self, other: P16) -> bool {
        true
    }

    open spec fn sub_spec(self, other: P16) -> P16 {
        P16(self.0 ^ other.0)
    }
}

impl core::ops::Sub<&P16> for P16 {
    type Output = P16;

    fn sub(self, other: &P16) -> (r: P16) {
        P16::sub(self, *other)
    }
}

impl vstd::std_specs::ops::SubSpecImpl<&P16> for P16 {
    open spec fn obeys_sub_spec() -> bool {
        true
    }

    open spec fn sub_req(self, other: &P16) -> bool {
        true
    }

    open spec fn sub_spec(self, other: &P16) -> P16 {
        P16(self.0 ^ other.0)
    }
}

impl core::ops::Sub<&P16> for &P16 {
    type Output = P16;

    fn sub(self, other: &P16) -> (r: P16) {
        P16::sub(*self, *other)
    }
}

impl vstd::std_specs::ops::SubSpecImpl<&P16> for &P16 {
    open spec fn obeys_sub_spec() -> bool {
        true
    }

    open spec fn sub_req(self, other: &P16) -> bool {
        true
    }

    open spec fn sub_spec(self, other: &P16) -> P16 {
        P16(self.0 ^ other.0)
    }
}

impl core::ops::SubAssign<P16> for P16 {
    fn sub_assign(&mut self, other: P16) {
        *self = P16::sub(*self, other);
    }
}

impl core::ops::SubAssign<&P16> for P16 {
    fn sub_assign(&mut self, other: &P16) {
        *self = P16::sub(*self, *other);
    }
}

impl core::ops::Mul<P16> for P16 {
    type Output = P16;

    fn mul(self, other: P16) -> (r: P16) {
        P16::mul(self, other)
    }
}

impl vstd::std_specs::ops::MulSpecImpl<P16> for P16 {
    open spec fn obeys_mul_spec() -> bool {
        true
    }

    open spec fn mul_req(self, other: P16) -> bool {
        true
    }

    open spec fn mul_spec(self, other: P16) -> P16 {
        P16(p16_mul_spec(self.0, other.0))
    }
}

impl core::ops::Mul<P16> for &P16 {
    type Output = P16;

    fn mul(self, other: P16) -> (r: P16) {
        P16::mul(*self, other)
    }
}

impl vstd::std_specs::ops::MulSpecImpl<P16> for &P16 {
    open spec fn obeys_mul_spec() -> bool {
        true
    }

    open spec fn mul_req(self, other: P16) -> bool {
        true
    }

    open spec fn mul_spec(self, other: P16) -> P16 {
        P16(p16_mul_spec(self.0, other.0))
    }
}

impl core::ops::Mul<&P16> for P16 {
    type Output = P16;

    fn mul(self, other: &P16) -> (r: P16) {
        P16::mul(self, *other)
    }
}

impl vstd::std_specs::ops::MulSpecImpl<&P16> for P16 {
    open spec fn obeys_mul_spec() -> bool {
        true
    }

    open spec fn mul_req(self, other: &P16) -> bool {
        true
    }

    open spec fn mul_spec(self, other: &P16) -> P16 {
        P16(p16_mul_spec(self.0, other.0))
    }
}

impl core::ops::Mul<&P16> for &P16 {
    type Output = P16;

    fn mul(self, other: &P16) -> (r: P16) {
        P16::mul(*self, *other)
    }
}

impl vstd::std_specs::ops::MulSpecImpl<&P16> for &P16 {
    open spec fn obeys_mul_spec() -> bool {
        true
    }

    open spec fn mul_req(self, other: &P16) -> bool {
        true
    }

    open spec fn mul_spec(self, other: &P16) -> P16 {
        P16(p16_mul_spec(self.0, other.0))
    }
}

impl core::ops::MulAssign<P16> for P16 {
    fn mul_assign(&mut self, other: P16) {
        *self = P16::mul(*self, other);
    }
}

impl core::ops::MulAssign<&P16> for P16 {
    fn mul_assign(&mut self, other: &P16) {
        *self = P16::mul(*self, *other);
    }
}

impl core::ops::Div<P16> for P16 {
    type Output = P16;

    fn div(self, other: P16) -> (r: P16) {
        P16::div(self, other)
    }
}

impl vstd::std_specs::ops::DivSpecImpl<P16> for P16 {
    open spec fn obeys_div_spec() -> bool {
        true
    }

    open spec fn div_req(self, other: P16) -> bool {
        other.0 != 0
    }

    open spec fn div_spec(self, other: P16) -> P16 {
        P16(p16_divrem_spec(self.0, other.0).0)
    }
}

impl core::ops::Div<P16> for &P16 {
    type Output = P16;

    fn div(self, other: P16) -> (r: P16) {
        P16::div(*self, other)
    }
}

impl vstd::std_specs::ops::DivSpecImpl<P16> for &P16 {
    open spec fn obeys_div_spec() -> bool {
        true
    }

    open spec fn div_req(self, other: P16) -> bool {
        other.0 != 0
    }

    open spec fn div_spec(self, other: P16) -> P16 {
        P16(p16_divrem_spec(self.0, other.0).0)
    }
}

impl core::ops::Div<&P16> for P16 {
    type Output = P16;

    fn div(self, other: &P16) -> (r: P16) {
        P16::div(self, *other)
    }
}

impl vstd::std_specs::ops::DivSpecImpl<&P16> for P16 {
    open spec fn obeys_div_spec() -> bool {
        true
    }

    open spec fn div_req(self, other: &P16) -> bool {
        other.0 != 0
    }

    open spec fn div_spec(self, other: &P16) -> P16 {
        P16(p16_divrem_spec(self.0, other.0).0)
    }
}

impl core::ops::Div<&P16> for &P16 {
    type Output = P16;

    fn div(self, other: &P16) -> (r: P16) {
        P16::div(*self, *other)
    }
}

impl vstd::std_specs::ops::DivSpecImpl<&P16> for &P16 {
    open spec fn obeys_div_spec() -> bool {
        true
    }

    open spec fn div_req(self, other: &P16) -> bool {
        other.0 != 0
    }

    open spec fn div_spec(self, other: &P16) -> P16 {
        P16(p16_divrem_spec(self.0, other.0).0)
    }
}

impl core::ops::Rem<P16> for P16 {
    type Output = P16;

    fn rem(self, other: P16) -> (r: P16) {
        P16::naive_rem(self, other)
    }
}

impl vstd::std_specs::ops::RemSpecImpl<P16> for P16 {
    open spec fn obeys_rem_spec() -> bool {
        true
    }

    open spec fn rem_req(self, other: P16) -> bool {
        other.0 != 0
    }

    open spec fn rem_spec(self, other: P16) -> P16 {
        P16(p16_divrem_spec(self.0, other.0).1)
    }
}

impl core::ops::Rem<P16> for &P16 {
    type Output = P16;

    fn rem(self, other: P16) -> (r: P16) {
        P16::naive_rem(*self, other)
    }
}

impl vstd::std_specs::ops::RemSpecImpl<P16> for &P16 {
    open spec fn obeys_rem_spec() -> bool {
        true
    }

    open spec fn rem_req(self, other: P16) -> bool {
        other.0 != 0
    }

    open spec fn rem_spec(self, other: P16) -> P16 {
        P16(p16_divrem_spec(self.0, other.0).1)
    }
}

impl core::ops::Rem<&P16> for P16 {
    type Output = P16;

    fn rem(self, other: &P16) -> (r: P16) {
        P16::naive_rem(self, *other)
    }
}

impl vstd::std_specs::ops::RemSpecImpl<&P16> for P16 {
    open spec fn obeys_rem_spec() -> bool {
        true
    }

    open spec fn rem_req(self, other: &P16) -> bool {
        other.0 != 0
    }

    open spec fn rem_spec(self, other: &P16) -> P16 {
        P16(p16_divrem_spec(self.0, other.0).1)
    }
}

impl core::ops::Rem<&P16> for &P16 {
    type Output = P16;

    fn rem(self, other: &P16) -> (r: P16) {
        P16::naive_rem(*self, *other)
    }
}

impl vstd::std_specs::ops::RemSpecImpl<&P16> for &P16 {
    open spec fn obeys_rem_spec() -> bool {
        true
    }

    open spec fn rem_req(self, other: &P16) -> bool {
        other.0 != 0
    }

    open spec fn rem_spec(self, other: &P16) -> P16 {
        P16(p16_divrem_spec(self.0, other.0).1)
    }
}

// ---------------------------------------------------------------------------
// P32: polynomials of degree below 32
// ---------------------------------------------------------------------------

#[derive(Clone, Copy, PartialEq, Eq, Structural, Debug, Hash)]
pub struct P32(pub u32);

/// The carry-less product of the low `i` bits of `a` with `b`, truncated to
/// 32 bits.
pub open spec fn p32_xmul(a: u32, b: u32, i: nat) -> u32
    decreases i,
{
    if i == 0 {
        0
    } else {
        let x = p32_xmul(a, b, (i - 1) as nat);
        if (a >> ((i - 1) as u32)) & 1 == 1 {
            x ^ ((b << ((i - 1) as u32)) as u32)
        } else {
            x
        }
    }
}

/// The product that `P32::mul` computes.
pub open spec fn p32_mul_spec(a: u32, b: u32) -> u32 {
    p32_xmul(a, b, 8)
}

/// Exponentiation by squaring: the accumulator `x` times `a^e`, squaring
/// `a` and halving `e` at each step.
pub open spec fn p32_pow_loop(x: u32, a: u32, e: u32) -> u32
    decreases e,
{
    let x2 = if e % 2 == 1 { p32_mul_spec(x, a) } else { x };
    if e / 2 == 0 {
        x2
    } else {
        p32_pow_loop(x2, p32_mul_spec(a, a), (e / 2) as u32)
    }
}

pub open spec fn p32_pow_spec(a: u32, e: u32) -> u32 {
    p32_pow_loop(1, a, e)
}

/// The number of significant bits of `x` among its low `r` bits (its degree
/// plus one, or zero for the zero polynomial).
pub open spec fn p32_bit_len(x: u32, r: nat) -> nat
    decreases r,
{
    if r == 0 {
        0
    } else if (x >> ((r - 1) as u32)) & 1 == 1 {
        r
    } else {
        p32_bit_len(x, (r - 1) as nat)
    }
}

/// Long division of `a` by `b` from quotient `x`, for at most `fuel` steps:
/// while `a` has at least the degree of `b`, the shifted divisor is
/// subtracted and the matching quotient bit set. Returns (quotient,
/// remainder).
pub open spec fn p32_divrem_loop(a: u32, b: u32, x: u32, fuel: nat) -> (u32, u32)
    decreases fuel,
{
    let la = p32_bit_len(a, 32);
    let lb = p32_bit_len(b, 32);
    if fuel == 0 || lb == 0 || la < lb {
        (x, a)
    } else {
        let s = (la - lb) as u32;
        p32_divrem_loop(
            a ^ ((b << s) as u32),
            b,
            x ^ (((1 as u32) << s) as u32),
            (fuel - 1) as nat,
        )
    }
}

/// (quotient, remainder) of `a` divided by `b`.
pub open spec fn p32_divrem_spec(a: u32, b: u32) -> (u32, u32) {
    p32_divrem_loop(a, b, 0, 32 + 1)
}

fn p32_bit_len_exec(x: u32) -> (r: u32)
    ensures
        r as nat == p32_bit_len(x, 32),
        r <= 32,
{
    let mut r: u32 = 32;
    while r > 0 && (x >> ((r - 1) as u32)) & 1 != 1
        invariant
            r <= 32,
            p32_bit_len(x, 32) == p32_bit_len(x, r as nat),
        decreases r,
    {
        r -= 1;
    }
    r
}

fn p32_divrem(a: u32, b: u32) -> (r: (u32, u32))
    ensures
        r == p32_divrem_spec(a, b),
{
    let mut a = a;
    let ghost a0 = a;
    let mut x: u32 = 0;
    let mut fuel: u32 = 32 + 1;
    let lb = p32_bit_len_exec(b);
    let mut la = p32_bit_len_exec(a);
    while fuel > 0 && lb > 0 && la >= lb
        invariant
            fuel <= 32 + 1,
            lb as nat == p32_bit_len(b, 32),
            la as nat == p32_bit_len(a, 32),
            lb <= 32,
            la <= 32,
            p32_divrem_spec(a0, b) == p32_divrem_loop(a, b, x, fuel as nat),
        decreases fuel,
    {
        let s = (la - lb) as u32;
        x = x ^ (1 << s);
        a = a ^ (b << s);
        fuel -= 1;
        la = p32_bit_len_exec(a);
    }
    (x, a)
}

impl P32 {
    pub fn new(v: u32) -> (r: P32)
        ensures
            r.0 == v,
    {
        P32(v)
    }

    pub fn get(self) -> (r: u32)
        ensures
            r == self.0,
    {
        self.0
    }

    pub fn add(self, other: P32) -> (r: P32)
        ensures
            r.0 == self.0 ^ other.0,
    {
        P32(self.0 ^ other.0)
    }

    pub fn sub(self, other: P32) -> (r: P32)
        ensures
            r.0 == self.0 ^ other.0,
    {
        P32(self.0 ^ other.0)
    }

    pub fn naive_wrapping_mul(self, other: P32) -> (r: P32)
        ensures
            r.0 == p32_mul_spec(self.0, other.0),
    {
        let a = self.0;
        let b = other.0;
        let mut x: u32 = 0;
        let mut i: u32 = 0;
        while i < 8
            invariant
                i <= 8,
                x == p32_xmul(a, b, i as nat),
            decreases 8 - i,
        {
            if (a >> i) & 1 == 1 {
                x = x ^ (b << i);
            }
            i += 1;
        }
        P32(x)
    }

    pub fn mul(self, other: P32) -> (r: P32)
        ensures
            r.0 == p32_mul_spec(self.0, other.0),
    {
        self.naive_wrapping_mul(other)
    }

    pub fn pow(self, exp: u32) -> (r: P32)
        ensures
            r.0 == p32_pow_spec(self.0, exp),
    {
        let mut a = self;
        let mut e = exp;
        let mut x = P32(1);
        loop
            invariant
                p32_pow_loop(x.0, a.0, e) == p32_pow_spec(self.0, exp),
            decreases e,
        {
            if e % 2 == 1 {
                x = x.mul(a);
            }
            e = e / 2;
            if e == 0 {
                return x;
            }
            a = a.mul(a);
        }
    }

    pub fn naive_checked_div(self, other: P32) -> (r: Option<P32>)
        ensures
            other.0 == 0 ==> r is None,
            other.0 != 0 ==> r == Some(P32(p32_divrem_spec(self.0, other.0).0)),
    {
        if other.0 == 0 {
            None
        } else {
            Some(P32(p32_divrem(self.0, other.0).0))
        }
    }

    pub fn div(self, other: P32) -> (r: P32)
        requires
            other.0 != 0,
        ensures
            r.0 == p32_divrem_spec(self.0, other.0).0,
    {
        match self.naive_checked_div(other) {
            Some(x) => x,
            None => P32(0),
        }
    }

    pub fn naive_checked_rem(self, other: P32) -> (r: Option<P32>)
        ensures
            other.0 == 0 ==> r is None,
            other.0 != 0 ==> r == Some(P32(p32_divrem_spec(self.0, other.0).1)),
    {
        if other.0 == 0 {
            None
        } else {
            Some(P32(p32_divrem(self.0, other.0).1))
        }
    }

    pub fn naive_rem(self, other: P32) -> (r: P32)
        requires
            other.0 != 0,
        ensures
            r.0 == p32_divrem_spec(self.0, other.0).1,
    {
        match self.naive_checked_rem(other) {
            Some(x) => x,
            None => P32(0),
        }
    }
}

impl core::convert::From<P32> for u32 {
    fn from(x: P32) -> (r: u32) {
        x.0
    }
}

impl vstd::std_specs::convert::FromSpecImpl<P32> for u32 {
    open spec fn obeys_from_spec() -> bool {
        true
    }

    open spec fn from_spec(x: P32) -> u32 {
        x.0
    }
}

impl core::ops::Not for P32 {
    type Output = P32;

    fn not(self) -> (r: P32) {
        P32(!self.0)
    }
}

impl vstd::std_specs::ops::NotSpecImpl for P32 {
    open spec fn obeys_not_spec() -> bool {
        true
    }

    open spec fn not_req(self) -> bool {
        true
    }

    open spec fn not_spec(self) -> P32 {
        P32(!self.0)
    }
}

impl core::ops::Not for &P32 {
    type Output = P32;

    fn not(self) -> (r: P32) {
        P32(!self.0)
    }
}

impl vstd::std_specs::ops::NotSpecImpl for &P32 {
    open spec fn obeys_not_spec() -> bool {
        true
    }

    open spec fn not_req(self) -> bool {
        true
    }

    open spec fn not_spec(self) -> P32 {
        P32(!self.0)
    }
}

impl core::ops::Add<P32> for P32 {
    type Output = P32;

    fn add(self, other: P32) -> (r: P32) {
        P32::add(self, other)
    }
}

impl vstd::std_specs::ops::AddSpecImpl<P32> for P32 {
    open spec fn obeys_add_spec() -> bool {
        true
    }

    open spec fn add_req(self, other: P32) -> bool {
        true
    }

    open spec fn add_spec(self, other: P32) -> P32 {
        P32(self.0 ^ other.0)
    }
}

impl core::ops::Add<P32> for &P32 {
    type Output = P32;

    fn add(self, other: P32) -> (r: P32) {
        P32::add(*self, other)
    }
}

impl vstd::std_specs::ops::AddSpecImpl<P32> for &P32 {
    open spec fn obeys_add_spec() -> bool {
        true
    }

    open spec fn add_req(self, other: P32) -> bool {
        true
    }

    open spec fn add_spec(self, other: P32) -> P32 {
        P32(self.0 ^ other.0)
    }
}

impl core::ops::Add<&P32> for P32 {
    type Output = P32;

    fn add(self, other: &P32) -> (r: P32) {
        P32::add(self, *other)
    }
}

impl vstd::std_specs::ops::AddSpecImpl<&P32> for P32 {
    open spec fn obeys_add_spec() -> bool {
        true
    }

    open spec fn add_req(self, other: &P32) -> bool {
        true
    }

    open spec fn add_spec(self, other: &P32) -> P32 {
        P32(self.0 ^ other.0)
    }
}

impl core::ops::Add<&P32> for &P32 {
    type Output = P32;

    fn add(self, other: &P32) -> (r: P32) {
        P32::add(*self, *other)
    }
}

impl vstd::std_specs::ops::AddSpecImpl<&P32> for &P32 {
    open spec fn obeys_add_spec() -> bool {
        true
    }

    open spec fn add_req(self, other: &P32) -> bool {
        true
    }

    open spec fn add_spec(self, other: &P32) -> P32 {
        P32(self.0 ^ other.0)
    }
}

impl core::ops::AddAssign<P32> for P32 {
    fn add_assign(&mut self, other: P32) {
        *self = P32::add(*self, other);
    }
}

impl core::ops::AddAssign<&P32> for P32 {
    fn add_assign(&mut self, other: &P32) {
        *self = P32::add(*self, *other);
    }
}

impl core::ops::Sub<P32> for P32 {
    type Output = P32;

    fn sub(self, other: P32) -> (r: P32) {
        P32::sub(self, other)
    }
}

impl vstd::std_specs::ops::SubSpecImpl<P32> for P32 {
    open spec fn obeys_sub_spec() -> bool {
        true
    }

    open spec fn sub_req(self, other: P32) -> bool {
        true
    }

    open spec fn sub_spec(self, other: P32) -> P32 {
        P32(self.0 ^ other.0)
    }
}

impl core::ops::Sub<P32> for &P32 {
    type Output = P32;

    fn sub(self, other: P32) -> (r: P32) {
        P32::sub(*self, other)
    }
}

impl vstd::std_specs::ops::SubSpecImpl<P32> for &P32 {
    open spec fn obeys_sub_spec() -> bool {
        true
    }

    open spec fn sub_req(self, other: P32) -> bool {
        true
    }

    open spec fn sub_spec(self, other: P32) -> P32 {
        P32(self.0 ^ other.0)
    }
}

impl core::ops::Sub<&P32> for P32 {
    type Output = P32;

    fn sub(self, other: &P32) -> (r: P32) {
        P32::sub(self, *other)
    }
}

impl vstd::std_specs::ops::SubSpecImpl<&P32> for P32 {
    open spec fn obeys_sub_spec() -> bool {
        true
    }

    open spec fn sub_req(self, other: &P32) -> bool {
        true
    }

    open spec fn sub_spec(self, other: &P32) -> P32 {
        P32(self.0 ^ other.0)
    }
}

impl core::ops::Sub<&P32> for &P32 {
    type Output = P32;

    fn sub(self, other: &P32) -> (r: P32) {
        P32::sub(*self, *other)
    }
}

impl vstd::std_specs::ops::SubSpecImpl<&P32> for &P32 {
    open spec fn obeys_sub_spec() -> bool {
        true
    }

    open spec fn sub_req(self, other: &P32) -> bool {
        true
    }

    open spec fn sub_spec(self, other: &P32) -> P32 {
        P32(self.0 ^ other.0)
    }
}

impl core::ops::SubAssign<P32> for P32 {
    fn sub_assign(&mut self, other: P32) {
        *self = P32::sub(*self, other);
    }
}

impl core::ops::SubAssign<&P32> for P32 {
    fn sub_assign(&mut self, other: &P32) {
        *self = P32::sub(*self, *other);
    }
}

impl core::ops::Mul<P32> for P32 {
    type Output = P32;

    fn mul(self, other: P32) -> (r: P32) {
        P32::mul(self, other)
    }
}

impl vstd::std_specs::ops::MulSpecImpl<P32> for P32 {
    open spec fn obeys_mul_spec() -> bool {
        true
    }

    open spec fn mul_req(self, other: P32) -> bool {
        true
    }

    open spec fn mul_spec(self, other: P32) -> P32 {
        P32(p32_mul_spec(self.0, other.0))
    }
}

impl core::ops::Mul<P32> for &P32 {
    type Output = P32;

    fn mul(self, other: P32) -> (r: P32) {
        P32::mul(*self, other)
    }
}

impl vstd::std_specs::ops::MulSpecImpl<P32> for &P32 {
    open spec fn obeys_mul_spec() -> bool {
        true
    }

    open spec fn mul_req(self, other: P32) -> bool {
        true
    }

    open spec fn mul_spec(self, other: P32) -> P32 {
        P32(p32_mul_spec(self.0, other.0))
    }
}

impl core::ops::Mul<&P32> for P32 {
    type Output = P32;

    fn mul(self, other: &P32) -> (r: P32) {
        P32::mul(self, *other)
    }
}

impl vstd::std_specs::ops::MulSpecImpl<&P32> for P32 {
    open spec fn obeys_mul_spec() -> bool {
        true
    }

    open spec fn mul_req(self, other: &P32) -> bool {
        true
    }

    open spec fn mul_spec(self, other: &P32) -> P32 {
        P32(p32_mul_spec(self.0, other.0))
    }
}

impl core::ops::Mul<&P32> for &P32 {
    type Output = P32;

    fn mul(self, other: &P32) -> (r: P32) {
        P32::mul(*self, *other)
    }
}

impl vstd::std_specs::ops::MulSpecImpl<&P32> for &P32 {
    open spec fn obeys_mul_spec() -> bool {
        true
    }

    open spec fn mul_req(self, other: &P32) -> bool {
        true
    }

    open spec fn mul_spec(self, other: &P32) -> P32 {
        P32(p32_mul_spec(self.0, other.0))
    }
}

impl core::ops::MulAssign<P32> for P32 {
    fn mul_assign(&mut self, other: P32) {
        *self = P32::mul(*self, other);
    }
}

impl core::ops::MulAssign<&P32> for P32 {
    fn mul_assign(&mut self, other: &P32) {
        *self = P32::mul(*self, *other);
    }
}

impl core::ops::Div<P32> for P32 {
    type Output = P32;

    fn div(self, other: P32) -> (r: P32) {
        P32::div(self, other)
    }
}

impl vstd::std_specs::ops::DivSpecImpl<P32> for P32 {
    open spec fn obeys_div_spec() -> bool {
        true
    }

    open spec fn div_req(self, other: P32) -> bool {
        other.0 != 0
    }

    open spec fn div_spec(self, other: P32) -> P32 {
        P32(p32_divrem_spec(self.0, other.0).0)
    }
}

impl core::ops::Div<P32> for &P32 {
    type Output = P32;

    fn div(self, other: P32) -> (r: P32) {
        P32::div(*self, other)
    }
}

impl vstd::std_specs::ops::DivSpecImpl<P32> for &P32 {
    open spec fn obeys_div_spec() -> bool {
        true
    }

    open spec fn div_req(self, other: P32) -> bool {
        other.0 != 0
    }

    open spec fn div_spec(self, other: P32) -> P32 {
        P32(p32_divrem_spec(self.0, other.0).0)
    }
}

impl core::ops::Div<&P32> for P32 {
    type Output = P32;

    fn div(self, other: &P32) -> (r: P32) {
        P32::div(self, *other)
    }
}

impl vstd::std_specs::ops::DivSpecImpl<&P32> for P32 {
    open spec fn obeys_div_spec() -> bool {
        true
    }

    open spec fn div_req(self, other: &P32) -> bool {
        other.0 != 0
    }

    open spec fn div_spec(self, other: &P32) -> P32 {
        P32(p32_divrem_spec(self.0, other.0).0)
    }
}

impl core::ops::Div<&P32> for &P32 {
    type Output = P32;

    fn div(self, other: &P32) -> (r: P32) {
        P32::div(*self, *other)
    }
}

impl vstd::std_specs::ops::DivSpecImpl<&P32> for &P32 {
    open spec fn obeys_div_spec() -> bool {
        true
    }

    open spec fn div_req(self, other: &P32) -> bool {
        other.0 != 0
    }

    open spec fn div_spec(self, other: &P32) -> P32 {
        P32(p32_divrem_spec(self.0, other.0).0)
    }
}

impl core::ops::Rem<P32> for P32 {
    type Output = P32;

    fn rem(self, other: P32) -> (r: P32) {
        P32::naive_rem(self, other)
    }
}

impl vstd::std_specs::ops::RemSpecImpl<P32> for P32 {
    open spec fn obeys_rem_spec() -> bool {
        true
    }

    open spec fn rem_req(self, other: P32) -> bool {
        other.0 != 0
    }

    open spec fn rem_spec(self, other: P32) -> P32 {
        P32(p32_divrem_spec(self.0, other.0).1)
    }
}

impl core::ops::Rem<P32> for &P32 {
    type Output = P32;

    fn rem(self, other: P32) -> (r: P32) {
        P32::naive_rem(*self, other)
    }
}

impl vstd::std_specs::ops::RemSpecImpl<P32> for &P32 {
    open spec fn obeys_rem_spec() -> bool {
        true
    }

    open spec fn rem_req(self, other: P32) -> bool {
        other.0 != 0
    }

    open spec fn rem_spec(self, other: P32) -> P32 {
        P32(p32_divrem_spec(self.0, other.0).1)
    }
}

impl core::ops::Rem<&P32> for P32 {
    type Output = P32;

    fn rem(self, other: &P32) -> (r: P32) {
        P32::naive_rem(self, *other)
    }
}

impl vstd::std_specs::ops::RemSpecImpl<&P32> for P32 {
    open spec fn obeys_rem_spec() -> bool {
        true
    }

    open spec fn rem_req(self, other: &P32) -> bool {
        other.0 != 0
    }

    open spec fn rem_spec(self, other: &P32) -> P32 {
        P32(p32_divrem_spec(self.0, other.0).1)
    }
}

impl core::ops::Rem<&P32> for &P32 {
    type Output = P32;

    fn rem(self, other: &P32) -> (r: P32) {
        P32::naive_rem(*self, *other)
    }
}

impl vstd::std_specs::ops::RemSpecImpl<&P32> for &P32 {
    open spec fn obeys_rem_spec() -> bool {
        true
    }

    open spec fn rem_req(self, other: &P32) -> bool {
        other.0 != 0
    }

    open spec fn rem_spec(self, other: &P32) -> P32 {
        P32(p32_divrem_spec(self.0, other.0).1)
    }
}

// ---------------------------------------------------------------------------
// P64: polynomials of degree below 64
// ---------------------------------------------------------------------------

#[derive(Clone, Copy, PartialEq, Eq, Structural, Debug, Hash)]
pub struct P64(pub u64);

/// The carry-less product of the low `i` bits of `a` with `b`, truncated to
/// 64 bits.
pub open spec fn p64_xmul(a: u64, b: u64, i: nat) -> u64
    decreases i,
{
    if i == 0 {
        0
    } else {
        let x = p64_xmul(a, b, (i - 1) as nat);
        if (a >> ((i - 1) as u64)) & 1 == 1 {
            x ^ ((b << ((i - 1) as u64)) as u64)
        } else {
            x
        }
    }
}

/// The product that `P64::mul` computes.
pub open spec fn p64_mul_spec(a: u64, b: u64) -> u64 {
    p64_xmul(a, b, 8)
}

/// Exponentiation by squaring: the accumulator `x` times `a^e`, squaring
/// `a` and halving `e` at each step.
pub open spec fn p64_pow_loop(x: u64, a: u64, e: u64) -> u64
    decreases e,
{
    let x2 = if e % 2 == 1 { p64_mul_spec(x, a) } else { x };
    if e / 2 == 0 {
        x2
    } else {
        p64_pow_loop(x2, p64_mul_spec(a, a), (e / 2) as u64)
    }
}

pub open spec fn p64_pow_spec(a: u64, e: u64) -> u64 {
    p64_pow_loop(1, a, e)
}

/// The number of significant bits of `x` among its low `r` bits (its degree
/// plus one, or zero for the zero polynomial).
pub open spec fn p64_bit_len(x: u64, r: nat) -> nat
    decreases r,
{
    if r == 0 {
        0
    } else if (x >> ((r - 1) as u64)) & 1 == 1 {
        r
    } else {
        p64_bit_len(x, (r - 1) as nat)
    }
}

/// Long division of `a` by `b` from quotient `x`, for at most `fuel` steps:
/// while `a` has at least the degree of `b`, the shifted divisor is
/// subtracted and the matching quotient bit set. Returns (quotient,
/// remainder).
pub open spec fn p64_divrem_loop(a: u64, b: u64, x: u64, fuel: nat) -> (u64, u64)
    decreases fuel,
{
    let la = p64_bit_len(a, 64);
    let lb = p64_bit_len(b, 64);
    if fuel == 0 || lb == 0 || la < lb {
        (x, a)
    } else {
        let s = (la - lb) as u64;
        p64_divrem_loop(
            a ^ ((b << s) as u64),
            b,
            x ^ (((1 as u64) << s) as u64),
            (fuel - 1) as nat,
        )
    }
}

/// (quotient, remainder) of `a` divided by `b`.
pub open spec fn p64_divrem_spec(a: u64, b: u64) -> (u64, u64) {
    p64_divrem_loop(a, b, 0, 64 + 1)
}

fn p64_bit_len_exec(x: u64) -> (r: u32)
    ensures
        r as nat == p64_bit_len(x, 64),
        r <= 64,
{
    let mut r: u32 = 64;
    while r > 0 && (x >> ((r - 1) as u64)) & 1 != 1
        invariant
            r <= 64,
            p64_bit_len(x, 64) == p64_bit_len(x, r as nat),
        decreases r,
    {
        r -= 1;
    }
    r
}

fn p64_divrem(a: u64, b: u64) -> (r: (u64, u64))
    ensures
        r == p64_divrem_spec(a, b),
{
    let mut a = a;
    let ghost a0 = a;
    let mut x: u64 = 0;
    let mut fuel: u32 = 64 + 1;
    let lb = p64_bit_len_exec(b);
    let mut la = p64_bit_len_exec(a);
    while fuel > 0 && lb > 0 && la >= lb
        invariant
            fuel <= 64 + 1,
            lb as nat == p64_bit_len(b, 64),
            la as nat == p64_bit_len(a, 64),
            lb <= 64,
            la <= 64,
            p64_divrem_spec(a0, b) == p64_divrem_loop(a, b, x, fuel as nat),
        decreases fuel,
    {
        let s = (la - lb) as u64;
        x = x ^ (1 << s);
        a = a ^ (b << s);
        fuel -= 1;
        la = p64_bit_len_exec(a);
    }
    (x, a)
}

impl P64 {
    pub fn new(v: u64) -> (r: P64)
        ensures
            r.0 == v,
    {
        P64(v)
    }

    pub fn get(self) -> (r: u64)
        ensures
            r == self.0,
    {
        self.0
    }

    pub fn add(self, other: P64) -> (r: P64)
        ensures
            r.0 == self.0 ^ other.0,
    {
        P64(self.0 ^ other.0)
    }

    pub fn sub(self, other: P64) -> (r: P64)
        ensures
            r.0 == self.0 ^ other.0,
    {
        P64(self.0 ^ other.0)
    }

    pub fn naive_wrapping_mul(self, other: P64) -> (r: P64)
        ensures
            r.0 == p64_mul_spec(self.0, other.0),
    {
        let a = self.0;
        let b = other.0;
        let mut x: u64 = 0;
        let mut i: u64 = 0;
        while i < 8
            invariant
                i <= 8,
                x == p64_xmul(a, b, i as nat),
            decreases 8 - i,
        {
            if (a >> i) & 1 == 1 {
                x = x ^ (b << i);
            }
            i += 1;
        }
        P64(x)
    }

    pub fn mul(self, other: P64) -> (r: P64)
        ensures
            r.0 == p64_mul_spec(self.0, other.0),
    {
        self.naive_wrapping_mul(other)
    }

    pub fn pow(self, exp: u64) -> (r: P64)
        ensures
            r.0 == p64_pow_spec(self.0, exp),
    {
        let mut a = self;
        let mut e = exp;
        let mut x = P64(1);
        loop
            invariant
                p64_pow_loop(x.0, a.0, e) == p64_pow_spec(self.0, exp),
            decreases e,
        {
            if e % 2 == 1 {
                x = x.mul(a);
            }
            e = e / 2;
            if e == 0 {
                return x;
            }
            a = a.mul(a);
        }
    }

    pub fn naive_checked_div(self, other: P64) -> (r: Option<P64>)
        ensures
            other.0 == 0 ==> r is None,
            other.0 != 0 ==> r == Some(P64(p64_divrem_spec(self.0, other.0).0)),
    {
        if other.0 == 0 {
            None
        } else {
            Some(P64(p64_divrem(self.0, other.0).0))
        }
    }

    pub fn div(self, other: P64) -> (r: P64)
        requires
            other.0 != 0,
        ensures
            r.0 == p64_divrem_spec(self.0, other.0).0,
    {
        match self.naive_checked_div(other) {
            Some(x) => x,
            None => P64(0),
        }
    }

    pub fn naive_checked_rem(self, other: P64) -> (r: Option<P64>)
        ensures
            other.0 == 0 ==> r is None,
            other.0 != 0 ==> r == Some(P64(p64_divrem_spec(self.0, other.0).1)),
    {
        if other.0 == 0 {
            None
        } else {
            Some(P64(p64_divrem(self.0, other.0).1))
        }
    }

    pub fn naive_rem(self, other: P64) -> (r: P64)
        requires
            other.0 != 0,
        ensures
            r.0 == p64_divrem_spec(self.0, other.0).1,
    {
        match self.naive_checked_rem(other) {
            Some(x) => x,
            None => P64(0),
        }
    }
}

impl core::convert::From<P64> for u64 {
    fn from(x: P64) -> (r: u64) {
        x.0
    }
}

impl vstd::std_specs::convert::FromSpecImpl<P64> for u64 {
    open spec fn obeys_from_spec() -> bool {
        true
    }

    open spec fn from_spec(x: P64) -> u64 {
        x.0
    }
}

impl core::ops::Not for P64 {
    type Output = P64;

    fn not(self) -> (r: P64) {
        P64(!self.0)
    }
}

impl vstd::std_specs::ops::NotSpecImpl for P64 {
    open spec fn obeys_not_spec() -> bool {
        true
    }

    open spec fn not_req(self) -> bool {
        true
    }

    open spec fn not_spec(self) -> P64 {
        P64(!self.0)
    }
}

impl core::ops::Not for &P64 {
    type Output = P64;

    fn not(self) -> (r: P64) {
        P64(!self.0)
    }
}

impl vstd::std_specs::ops::NotSpecImpl for &P64 {
    open spec fn obeys_not_spec() -> bool {
        true
    }

    open spec fn not_req(self) -> bool {
        true
    }

    open spec fn not_spec(self) -> P64 {
        P64(!self.0)
    }
}

impl core::ops::Add<P64> for P64 {
    type Output = P64;

    fn add(self, other: P64) -> (r: P64) {
        P64::add(self, other)
    }
}

impl vstd::std_specs::ops::AddSpecImpl<P64> for P64 {
    open spec fn obeys_add_spec() -> bool {
        true
    }

    open spec fn add_req(self, other: P64) -> bool {
        true
    }

    open spec fn add_spec(self, other: P64) -> P64 {
        P64(self.0 ^ other.0)
    }
}

impl core::ops::Add<P64> for &P64 {
    type Output = P64;

    fn add(self, other: P64) -> (r: P64) {
        P64::add(*self, other)
    }
}

impl vstd::std_specs::ops::AddSpecImpl<P64> for &P64 {
    open spec fn obeys_add_spec() -> bool {
        true
    }

    open spec fn add_req(self, other: P64) -> bool {
        true
    }

    open spec fn add_spec(self, other: P64) -> P64 {
        P64(self.0 ^ other.0)
    }
}

impl core::ops::Add<&P64> for P64 {
    type Output = P64;

    fn add(self, other: &P64) -> (r: P64) {
        P64::add(self, *other)
    }
}

impl vstd::std_specs::ops::AddSpecImpl<&P64> for P64 {
    open spec fn obeys_add_spec() -> bool {
        true
    }

    open spec fn add_req(self, other: &P64) -> bool {
        true
    }

    open spec fn add_spec(self, other: &P64) -> P64 {
        P64(self.0 ^ other.0)
    }
}

impl core::ops::Add<&P64> for &P64 {
    type Output = P64;

    fn add(self, other: &P64) -> (r: P64) {
        P64::add(*self, *other)
    }
}

impl vstd::std_specs::ops::AddSpecImpl<&P64> for &P64 {
    open spec fn obeys_add_spec() -> bool {
        true
    }

    open spec fn add_req(self, other: &P64) -> bool {
        true
    }

    open spec fn add_spec(self, other: &P64) -> P64 {
        P64(self.0 ^ other.0)
    }
}

impl core::ops::AddAssign<P64> for P64 {
    fn add_assign(&mut self, other: P64) {
        *self = P64::add(*self, other);
    }
}

impl core::ops::AddAssign<&P64> for P64 {
    fn add_assign(&mut self, other: &P64) {
        *self = P64::add(*self, *other);
    }
}

impl core::ops::Sub<P64> for P64 {
    type Output = P64;

    fn sub(self, other: P64) -> (r: P64) {
        P64::sub(self, other)
    }
}

impl vstd::std_specs::ops::SubSpecImpl<P64> for P64 {
    open spec fn obeys_sub_spec() -> bool {
        true
    }

    open spec fn sub_req(self, other: P64) -> bool {
        true
    }

    open spec fn sub_spec(self, other: P64) -> P64 {
        P64(self.0 ^ other.0)
    }
}

impl core::ops::Sub<P64> for &P64 {
    type Output = P64;

    fn sub(self, other: P64) -> (r: P64) {
        P64::sub(*self, other)
    }
}

impl vstd::std_specs::ops::SubSpecImpl<P64> for &P64 {
    open spec fn obeys_sub_spec() -> bool {
        true
    }

    open spec fn sub_req(self, other: P64) -> bool {
        true
    }

    open spec fn sub_spec(self, other: P64) -> P64 {
        P64(self.0 ^ other.0)
    }
}

impl core::ops::Sub<&P64> for P64 {
    type Output = P64;

    fn sub(self, other: &P64) -> (r: P64) {
        P64::sub(self, *other)
    }
}

impl vstd::std_specs::ops::SubSpecImpl<&P64> for P64 {
    open spec fn obeys_sub_spec() -> bool {
        true
    }

    open spec fn sub_req(self, other: &P64) -> bool {
        true
    }

    open spec fn sub_spec(self, other: &P64) -> P64 {
        P64(self.0 ^ other.0)
    }
}

impl core::ops::Sub<&P64> for &P64 {
    type Output = P64;

    fn sub(self, other: &P64) -> (r: P64) {
        P64::sub(*self, *other)
    }
}

impl vstd::std_specs::ops::SubSpecImpl<&P64> for &P64 {
    open spec fn obeys_sub_spec() -> bool {
        true
    }

    open spec fn sub_req(self, other: &P64) -> bool {
        true
    }

    open spec fn sub_spec(self, other: &P64) -> P64 {
        P64(self.0 ^ other.0)
    }
}

impl core::ops::SubAssign<P64> for P64 {
    fn sub_assign(&mut self, other: P64) {
        *self = P64::sub(*self, other);
    }
}

impl core::ops::SubAssign<&P64> for P64 {
    fn sub_assign(&mut self, other: &P64) {
        *self = P64::sub(*self, *other);
    }
}

impl core::ops::Mul<P64> for P64 {
    type Output = P64;

    fn mul(self, other: P64) -> (r: P64) {
        P64::mul(self, other)
    }
}

impl vstd::std_specs::ops::MulSpecImpl<P64> for P64 {
    open spec fn obeys_mul_spec() -> bool {
        true
    }

    open spec fn mul_req(self, other: P64) -> bool {
        true
    }

    open spec fn mul_spec(self, other: P64) -> P64 {
        P64(p64_mul_spec(self.0, other.0))
    }
}

impl core::ops::Mul<P64> for &P64 {
    type Output = P64;

    fn mul(self, other: P64) -> (r: P64) {
        P64::mul(*self, other)
    }
}

impl vstd::std_specs::ops::MulSpecImpl<P64> for &P64 {
    open spec fn obeys_mul_spec() -> bool {
        true
    }

    open spec fn mul_req(self, other: P64) -> bool {
        true
    }

    open spec fn mul_spec(self, other: P64) -> P64 {
        P64(p64_mul_spec(self.0, other.0))
    }
}

impl core::ops::Mul<&P64> for P64 {
    type Output = P64;

    fn mul(self, other: &P64) -> (r: P64) {
        P64::mul(self, *other)
    }
}

impl vstd::std_specs::ops::MulSpecImpl<&P64> for P64 {
    open spec fn obeys_mul_spec() -> bool {
        true
    }

    open spec fn mul_req(self, other: &P64) -> bool {
        true
    }

    open spec fn mul_spec(self, other: &P64) -> P64 {
        P64(p64_mul_spec(self.0, other.0))
    }
}

impl core::ops::Mul<&P64> for &P64 {
    type Output = P64;

    fn mul(self, other: &P64) -> (r: P64) {
        P64::mul(*self, *other)
    }
}

impl vstd::std_specs::ops::MulSpecImpl<&P64> for &P64 {
    open spec fn obeys_mul_spec() -> bool {
        true
    }

    open spec fn mul_req(self, other: &P64) -> bool {
        true
    }

    open spec fn mul_spec(self, other: &P64) -> P64 {
        P64(p64_mul_spec(self.0, other.0))
    }
}

impl core::ops::MulAssign<P64> for P64 {
    fn mul_assign(&mut self, other: P64) {
        *self = P64::mul(*self, other);
    }
}

impl core::ops::MulAssign<&P64> for P64 {
    fn mul_assign(&mut self, other: &P64) {
        *self = P64::mul(*self, *other);
    }
}

impl core::ops::Div<P64> for P64 {
    type Output = P64;

    fn div(self, other: P64) -> (r: P64) {
        P64::div(self, other)
    }
}

impl vstd::std_specs::ops::DivSpecImpl<P64> for P64 {
    open spec fn obeys_div_spec() -> bool {
        true
    }

    open spec fn div_req(self, other: P64) -> bool {
        other.0 != 0
    }

    open spec fn div_spec(self, other: P64) -> P64 {
        P64(p64_divrem_spec(self.0, other.0).0)
    }
}

impl core::ops::Div<P64> for &P64 {
    type Output = P64;

    fn div(self, other: P64) -> (r: P64) {
        P64::div(*self, other)
    }
}

impl vstd::std_specs::ops::DivSpecImpl<P64> for &P64 {
    open spec fn obeys_div_spec() -> bool {
        true
    }

    open spec fn div_req(self, other: P64) -> bool {
        other.0 != 0
    }

    open spec fn div_spec(self, other: P64) -> P64 {
        P64(p64_divrem_spec(self.0, other.0).0)
    }
}

impl core::ops::Div<&P64> for P64 {
    type Output = P64;

    fn div(self, other: &P64) -> (r: P64) {
        P64::div(self, *other)
    }
}

impl vstd::std_specs::ops::DivSpecImpl<&P64> for P64 {
    open spec fn obeys_div_spec() -> bool {
        true
    }

    open spec fn div_req(self, other: &P64) -> bool {
        other.0 != 0
    }

    open spec fn div_spec(self, other: &P64) -> P64 {
        P64(p64_divrem_spec(self.0, other.0).0)
    }
}

impl core::ops::Div<&P64> for &P64 {
    type Output = P64;

    fn div(self, other: &P64) -> (r: P64) {
        P64::div(*self, *other)
    }
}

impl vstd::std_specs::ops::DivSpecImpl<&P64> for &P64 {
    open spec fn obeys_div_spec() -> bool {
        true
    }

    open spec fn div_req(self, other: &P64) -> bool {
        other.0 != 0
    }

    open spec fn div_spec(self, other: &P64) -> P64 {
        P64(p64_divrem_spec(self.0, other.0).0)
    }
}

impl core::ops::Rem<P64> for P64 {
    type Output = P64;

    fn rem(self, other: P64) -> (r: P64) {
        P64::naive_rem(self, other)
    }
}

impl vstd::std_specs::ops::RemSpecImpl<P64> for P64 {
    open spec fn obeys_rem_spec() -> bool {
        true
    }

    open spec fn rem_req(self, other: P64) -> bool {
        other.0 != 0
    }

    open spec fn rem_spec(self, other: P64) -> P64 {
        P64(p64_divrem_spec(self.0, other.0).1)
    }
}

impl core::ops::Rem<P64> for &P64 {
    type Output = P64;

    fn rem(self, other: P64) -> (r: P64) {
        P64::naive_rem(*self, other)
    }
}

impl vstd::std_specs::ops::RemSpecImpl<P64> for &P64 {
    open spec fn obeys_rem_spec() -> bool {
        true
    }

    open spec fn rem_req(self, other: P64) -> bool {
        other.0 != 0
    }

    open spec fn rem_spec(self, other: P64) -> P64 {
        P64(p64_divrem_spec(self.0, other.0).1)
    }
}

impl core::ops::Rem<&P64> for P64 {
    type Output = P64;

    fn rem(self, other: &P64) -> (r: P64) {
        P64::naive_rem(self, *other)
    }
}

impl vstd::std_specs::ops::RemSpecImpl<&P64> for P64 {
    open spec fn obeys_rem_spec() -> bool {
        true
    }

    open spec fn rem_req(self, other: &P64) -> bool {
        other.0 != 0
    }

    open spec fn rem_spec(self, other: &P64) -> P64 {
        P64(p64_divrem_spec(self.0, other.0).1)
    }
}

impl core::ops::Rem<&P64> for &P64 {
    type Output = P64;

    fn rem(self, other: &P64) -> (r: P64) {
        P64::naive_rem(*self, *other)
    }
}

impl vstd::std_specs::ops::RemSpecImpl<&P64> for &P64 {
    open spec fn obeys_rem_spec() -> bool {
        true
    }

    open spec fn rem_req(self, other: &P64) -> bool {
        other.0 != 0
    }

    open spec fn rem_spec(self, other: &P64) -> P64 {
        P64(p64_divrem_spec(self.0, other.0).1)
    }
}

// ---------------------------------------------------------------------------
// P128: polynomials of degree below 128
// ---------------------------------------------------------------------------

#[derive(Clone, Copy, PartialEq, Eq, Structural, Debug, Hash)]
pub struct P128(pub u128);

/// The carry-less product of the low `i` bits of `a` with `b`, truncated to
/// 128 bits.
pub open spec fn p128_xmul(a: u128, b: u128, i: nat) -> u128
    decreases i,
{
    if i == 0 {
        0
    } else {
        let x = p128_xmul(a, b, (i - 1) as nat);
        if (a >> ((i - 1) as u128)) & 1 == 1 {
            x ^ ((b << ((i - 1) as u128)) as u128)
        } else {
            x
        }
    }
}

/// The product that `P128::mul` computes.
pub open spec fn p128_mul_spec(a: u128, b: u128) -> u128 {
    p128_xmul(a, b, 8)
}

/// Exponentiation by squaring: the accumulator `x` times `a^e`, squaring
/// `a` and halving `e` at each step.
pub open spec fn p128_pow_loop(x: u128, a: u128, e: u128) -> u128
    decreases e,
{
    let x2 = if e % 2 == 1 { p128_mul_spec(x, a) } else { x };
    if e / 2 == 0 {
        x2
    } else {
        p128_pow_loop(x2, p128_mul_spec(a, a), (e / 2) as u128)
    }
}

pub open spec fn p128_pow_spec(a: u128, e: u128) -> u128 {
    p128_pow_loop(1, a, e)
}

/// The number of significant bits of `x` among its low `r` bits (its degree
/// plus one, or zero for the zero polynomial).
pub open spec fn p128_bit_len(x: u128, r: nat) -> nat
    decreases r,
{
    if r == 0 {
        0
    } else if (x >> ((r - 1) as u128)) & 1 == 1 {
        r
    } else {
        p128_bit_len(x, (r - 1) as nat)
    }
}

/// Long division of `a` by `b` from quotient `x`, for at most `fuel` steps:
/// while `a` has at least the degree of `b`, the shifted divisor is
/// subtracted and the matching quotient bit set. Returns (quotient,
/// remainder).
pub open spec fn p128_divrem_loop(a: u128, b: u128, x: u128, fuel: nat) -> (u128, u128)
    decreases fuel,
{
    let la = p128_bit_len(a, 128);
    let lb = p128_bit_len(b, 128);
    if fuel == 0 || lb == 0 || la < lb {
        (x, a)
    } else {
        let s = (la - lb) as u128;
        p128_divrem_loop(
            a ^ ((b << s) as u128),
            b,
            x ^ (((1 as u128) << s) as u128),
            (fuel - 1) as nat,
        )
    }
}

/// (quotient, remainder) of `a` divided by `b`.
pub open spec fn p128_divrem_spec(a: u128, b: u128) -> (u128, u128) {
    p128_divrem_loop(a, b, 0, 128 + 1)
}

fn p128_bit_len_exec(x: u128) -> (r: u32)
    ensures
        r as nat == p128_bit_len(x, 128),
        r <= 128,
{
    let mut r: u32 = 128;
    while r > 0 && (x >> ((r - 1) as u128)) & 1 != 1
        invariant
            r <= 128,
            p128_bit_len(x, 128) == p128_bit_len(x, r as nat),
        decreases r,
    {
        r -= 1;
    }
    r
}

fn p128_divrem(a: u128, b: u128) -> (r: (u128, u128))
    ensures
        r == p128_divrem_spec(a, b),
{
    let mut a = a;
    let ghost a0 = a;
    let mut x: u128 = 0;
    let mut fuel: u32 = 128 + 1;
    let lb = p128_bit_len_exec(b);
    let mut la = p128_bit_len_exec(a);
    while fuel > 0 && lb > 0 && la >= lb
        invariant
            fuel <= 128 + 1,
            lb as nat == p128_bit_len(b, 128),
            la as nat == p128_bit_len(a, 128),
            lb <= 128,
            la <= 128,
            p128_divrem_spec(a0, b) == p128_divrem_loop(a, b, x, fuel as nat),
        decreases fuel,
    {
        let s = (la - lb) as u128;
        x = x ^ (1 << s);
        a = a ^ (b << s);
        fuel -= 1;
        la = p128_bit_len_exec(a);
    }
    (x, a)
}

impl P128 {
    pub fn new(v: u128) -> (r: P128)
        ensures
            r.0 == v,
    {
        P128(v)
    }

    pub fn get(self) -> (r: u128)
        ensures
            r == self.0,
    {
        self.0
    }

    pub fn add(self, other: P128) -> (r: P128)
        ensures
            r.0 == self.0 ^ other.0,
    {
        P128(self.0 ^ other.0)
    }

    pub fn sub(self, other: P128) -> (r: P128)
        ensures
            r.0 == self.0 ^ other.0,
    {
        P128(self.0 ^ other.0)
    }

    pub fn naive_wrapping_mul(self, other: P128) -> (r: P128)
        ensures
            r.0 == p128_mul_spec(self.0, other.0),
    {
        let a = self.0;
        let b = other.0;
        let mut x: u128 = 0;
        let mut i: u128 = 0;
        while i < 8
            invariant
                i <= 8,
                x == p128_xmul(a, b, i as nat),
            decreases 8 - i,
        {
            if (a >> i) & 1 == 1 {
                x = x ^ (b << i);
            }
            i += 1;
        }
        P128(x)
    }

    pub fn mul(self, other: P128) -> (r: P128)
        ensures
            r.0 == p128_mul_spec(self.0, other.0),
    {
        self.naive_wrapping_mul(other)
    }

    pub fn pow(self, exp: u128) -> (r: P128)
        ensures
            r.0 == p128_pow_spec(self.0, exp),
    {
        let mut a = self;
        let mut e = exp;
        let mut x = P128(1);
        loop
            invariant
                p128_pow_loop(x.0, a.0, e) == p128_pow_spec(self.0, exp),
            decreases e,
        {
            if e % 2 == 1 {
                x = x.mul(a);
            }
            e = e / 2;
            if e == 0 {
                return x;
            }
            a = a.mul(a);
        }
    }

    pub fn naive_checked_div(self, other: P128) -> (r: Option<P128>)
        ensures
            other.0 == 0 ==> r is None,
            other.0 != 0 ==> r == Some(P128(p128_divrem_spec(self.0, other.0).0)),
    {
        if other.0 == 0 {
            None
        } else {
            Some(P128(p128_divrem(self.0, other.0).0))
        }
    }

    pub fn div(self, other: P128) -> (r: P128)
        requires
            other.0 != 0,
        ensures
            r.0 == p128_divrem_spec(self.0, other.0).0,
    {
        match self.naive_checked_div(other) {
            Some(x) => x,
            None => P128(0),
        }
    }

    pub fn naive_checked_rem(self, other: P128) -> (r: Option<P128>)
        ensures
            other.0 == 0 ==> r is None,
            other.0 != 0 ==> r == Some(P128(p128_divrem_spec(self.0, other.0).1)),
    {
        if other.0 == 0 {
            None
        } else {
            Some(P128(p128_divrem(self.0, other.0).1))
        }
    }

    pub fn naive_rem(self, other: P128) -> (r: P128)
        requires
            other.0 != 0,
        ensures
            r.0 == p128_divrem_spec(self.0, other.0).1,
    {
        match self.naive_checked_rem(other) {
            Some(x) => x,
            None => P128(0),
        }
    }
}

impl core::convert::From<P128> for u128 {
    fn from(x: P128) -> (r: u128) {
        x.0
    }
}

impl vstd::std_specs::convert::FromSpecImpl<P128> for u128 {
    open spec fn obeys_from_spec() -> bool {
        true
    }

    open spec fn from_spec(x: P128) -> u128 {
        x.0
    }
}

impl core::ops::Not for P128 {
    type Output = P128;

    fn not(self) -> (r: P128) {
        P128(!self.0)
    }
}

impl vstd::std_specs::ops::NotSpecImpl for P128 {
    open spec fn obeys_not_spec() -> bool {
        true
    }

    open spec fn not_req(self) -> bool {
        true
    }

    open spec fn not_spec(self) -> P128 {
        P128(!self.0)
    }
}

impl core::ops::Not for &P128 {
    type Output = P128;

    fn not(self) -> (r: P128) {
        P128(!self.0)
    }
}

impl vstd::std_specs::ops::NotSpecImpl for &P128 {
    open spec fn obeys_not_spec() -> bool {
        true
    }

    open spec fn not_req(self) -> bool {
        true
    }

    open spec fn not_spec(self) -> P128 {
        P128(!self.0)
    }
}

impl core::ops::Add<P128> for P128 {
    type Output = P128;

    fn add(self, other: P128) -> (r: P128) {
        P128::add(self, other)
    }
}

impl vstd::std_specs::ops::AddSpecImpl<P128> for P128 {
    open spec fn obeys_add_spec() -> bool {
        true
    }

    open spec fn add_req(self, other: P128) -> bool {
        true
    }

    open spec fn add_spec(self, other: P128) -> P128 {
        P128(self.0 ^ other.0)
    }
}

impl core::ops::Add<P128> for &P128 {
    type Output = P128;

    fn add(self, other: P128) -> (r: P128) {
        P128::add(*self, other)
    }
}

impl vstd::std_specs::ops::AddSpecImpl<P128> for &P128 {
    open spec fn obeys_add_spec() -> bool {
        true
    }

    open spec fn add_req(self, other: P128) -> bool {
        true
    }

    open spec fn add_spec(self, other: P128) -> P128 {
        P128(self.0 ^ other.0)
    }
}

impl core::ops::Add<&P128> for P128 {
    type Output = P128;

    fn add(self, other: &P128) -> (r: P128) {
        P128::add(self, *other)
    }
}

impl vstd::std_specs::ops::AddSpecImpl<&P128> for P128 {
    open spec fn obeys_add_spec() -> bool {
        true
    }

    open spec fn add_req(self, other: &P128) -> bool {
        true
    }

    open spec fn add_spec(self, other: &P128) -> P128 {
        P128(self.0 ^ other.0)
    }
}

impl core::ops::Add<&P128> for &P128 {
    type Output = P128;

    fn add(self, other: &P128) -> (r: P128) {
        P128::add(*self, *other)
    }
}

impl vstd::std_specs::ops::AddSpecImpl<&P128> for &P128 {
    open spec fn obeys_add_spec() -> bool {
        true
    }

    open spec fn add_req(self, other: &P128) -> bool {
        true
    }

    open spec fn add_spec(self, other: &P128) -> P128 {
        P128(self.0 ^ other.0)
    }
}

impl core::ops::AddAssign<P128> for P128 {
    fn add_assign(&mut self, other: P128) {
        *self = P128::add(*self, other);
    }
}

impl core::ops::AddAssign<&P128> for P128 {
    fn add_assign(&mut self, other: &P128) {
        *self = P128::add(*self, *other);
    }
}

impl core::ops::Sub<P128> for P128 {
    type Output = P128;

    fn sub(self, other: P128) -> (r: P128) {
        P128::sub(self, other)
    }
}

impl vstd::std_specs::ops::SubSpecImpl<P128> for P128 {
    open spec fn obeys_sub_spec() -> bool {
        true
    }

    open spec fn sub_req(self, other: P128) -> bool {
        true
    }

    open spec fn sub_spec(self, other: P128) -> P128 {
        P128(self.0 ^ other.0)
    }
}

impl core::ops::Sub<P128> for &P128 {
    type Output = P128;

    fn sub(self, other: P128) -> (r: P128) {
        P128::sub(*self, other)
    }
}

impl vstd::std_specs::ops::SubSpecImpl<P128> for &P128 {
    open spec fn obeys_sub_spec() -> bool {
        true
    }

    open spec fn sub_req(self, other: P128) -> bool {
        true
    }

    open spec fn sub_spec(self, other: P128) -> P128 {
        P128(self.0 ^ other.0)
    }
}

impl core::ops::Sub<&P128> for P128 {
    type Output = P128;

    fn sub(self, other: &P128) -> (r: P128) {
        P128::sub(self, *other)
    }
}

impl vstd::std_specs::ops::SubSpecImpl<&P128> for P128 {
    open spec fn obeys_sub_spec() -> bool {
        true
    }

    open spec fn sub_req(self, other: &P128) -> bool {
        true
    }

    open spec fn sub_spec(self, other: &P128) -> P128 {
        P128(self.0 ^ other.0)
    }
}

impl core::ops::Sub<&P128> for &P128 {
    type Output = P128;

    fn sub(self, other: &P128) -> (r: P128) {
        P128::sub(*self, *other)
    }
}

impl vstd::std_specs::ops::SubSpecImpl<&P128> for &P128 {
    open spec fn obeys_sub_spec() -> bool {
        true
    }

    open spec fn sub_req(self, other: &P128) -> bool {
        true
    }

    open spec fn sub_spec(self, other: &P128) -> P128 {
        P128(self.0 ^ other.0)
    }
}

impl core::ops::SubAssign<P128> for P128 {
    fn sub_assign(&mut self, other: P128) {
        *self = P128::sub(*self, other);
    }
}

impl core::ops::SubAssign<&P128> for P128 {
    fn sub_assign(&mut self, other: &P128) {
        *self = P128::sub(*self, *other);
    }
}

impl core::ops::Mul<P128> for P128 {
    type Output = P128;

    fn mul(self, other: P128) -> (r: P128) {
        P128::mul(self, other)
    }
}

impl vstd::std_specs::ops::MulSpecImpl<P128> for P128 {
    open spec fn obeys_mul_spec() -> bool {
        true
    }

    open spec fn mul_req(self, other: P128) -> bool {
        true
    }

    open spec fn mul_spec(self, other: P128) -> P128 {
        P128(p128_mul_spec(self.0, other.0))
    }
}

impl core::ops::Mul<P128> for &P128 {
    type Output = P128;

    fn mul(self, other: P128) -> (r: P128) {
        P128::mul(*self, other)
    }
}

impl vstd::std_specs::ops::MulSpecImpl<P128> for &P128 {
    open spec fn obeys_mul_spec() -> bool {
        true
    }

    open spec fn mul_req(self, other: P128) -> bool {
        true
    }

    open spec fn mul_spec(self, other: P128) -> P128 {
        P128(p128_mul_spec(self.0, other.0))
    }
}

impl core::ops::Mul<&P128> for P128 {
    type Output = P128;

    fn mul(self, other: &P128) -> (r: P128) {
        P128::mul(self, *other)
    }
}

impl vstd::std_specs::ops::MulSpecImpl<&P128> for P128 {
    open spec fn obeys_mul_spec() -> bool {
        true
    }

    open spec fn mul_req(self, other: &P128) -> bool {
        true
    }

    open spec fn mul_spec(self, other: &P128) -> P128 {
        P128(p128_mul_spec(self.0, other.0))
    }
}

impl core::ops::Mul<&P128> for &P128 {
    type Output = P128;

    fn mul(self, other: &P128) -> (r: P128) {
        P128::mul(*self, *other)
    }
}

impl vstd::std_specs::ops::MulSpecImpl<&P128> for &P128 {
    open spec fn obeys_mul_spec() -> bool {
        true
    }

    open spec fn mul_req(self, other: &P128) -> bool {
        true
    }

    open spec fn mul_spec(self, other: &P128) -> P128 {
        P128(p128_mul_spec(self.0, other.0))
    }
}

impl core::ops::MulAssign<P128> for P128 {
    fn mul_assign(&mut self, other: P128) {
        *self = P128::mul(*self, other);
    }
}

impl core::ops::MulAssign<&P128> for P128 {
    fn mul_assign(&mut self, other: &P128) {
        *self = P128::mul(*self, *other);
    }
}

impl core::ops::Div<P128> for P128 {
    type Output = P128;

    fn div(self, other: P128) -> (r: P128) {
        P128::div(self, other)
    }
}

impl vstd::std_specs::ops::DivSpecImpl<P128> for P128 {
    open spec fn obeys_div_spec() -> bool {
        true
    }

    open spec fn div_req(self, other: P128) -> bool {
        other.0 != 0
    }

    open spec fn div_spec(self, other: P128) -> P128 {
        P128(p128_divrem_spec(self.0, other.0).0)
    }
}

impl core::ops::Div<P128> for &P128 {
    type Output = P128;

    fn div(self, other: P128) -> (r: P128) {
        P128::div(*self, other)
    }
}

impl vstd::std_specs::ops::DivSpecImpl<P128> for &P128 {
    open spec fn obeys_div_spec() -> bool {
        true
    }

    open spec fn div_req(self, other: P128) -> bool {
        other.0 != 0
    }

    open spec fn div_spec(self, other: P128) -> P128 {
        P128(p128_divrem_spec(self.0, other.0).0)
    }
}

impl core::ops::Div<&P128> for P128 {
    type Output = P128;

    fn div(self, other: &P128) -> (r: P128) {
        P128::div(self, *other)
    }
}

impl vstd::std_specs::ops::DivSpecImpl<&P128> for P128 {
    open spec fn obeys_div_spec() -> bool {
        true
    }

    open spec fn div_req(self, other: &P128) -> bool {
        other.0 != 0
    }

    open spec fn div_spec(self, other: &P128) -> P128 {
        P128(p128_divrem_spec(self.0, other.0).0)
    }
}

impl core::ops::Div<&P128> for &P128 {
    type Output = P128;

    fn div(self, other: &P128) -> (r: P128) {
        P128::div(*self, *other)
    }
}

impl vstd::std_specs::ops::DivSpecImpl<&P128> for &P128 {
    open spec fn obeys_div_spec() -> bool {
        true
    }

    open spec fn div_req(self, other: &P128) -> bool {
        other.0 != 0
    }

    open spec fn div_spec(self, other: &P128) -> P128 {
        P128(p128_divrem_spec(self.0, other.0).0)
    }
}

impl core::ops::Rem<P128> for P128 {
    type Output = P128;

    fn rem(self, other: P128) -> (r: P128) {
        P128::naive_rem(self, other)
    }
}

impl vstd::std_specs::ops::RemSpecImpl<P128> for P128 {
    open spec fn obeys_rem_spec() -> bool {
        true
    }

    open spec fn rem_req(self, other: P128) -> bool {
        other.0 != 0
    }

    open spec fn rem_spec(self, other: P128) -> P128 {
        P128(p128_divrem_spec(self.0, other.0).1)
    }
}

impl core::ops::Rem<P128> for &P128 {
    type Output = P128;

    fn rem(self, other: P128) -> (r: P128) {
        P128::naive_rem(*self, other)
    }
}

impl vstd::std_specs::ops::RemSpecImpl<P128> for &P128 {
    open spec fn obeys_rem_spec() -> bool {
        true
    }

    open spec fn rem_req(self, other: P128) -> bool {
        other.0 != 0
    }

    open spec fn rem_spec(self, other: P128) -> P128 {
        P128(p128_divrem_spec(self.0, other.0).1)
    }
}

impl core::ops::Rem<&P128> for P128 {
    type Output = P128;

    fn rem(self, other: &P128) -> (r: P128) {
        P128::naive_rem(self, *other)
    }
}

impl vstd::std_specs::ops::RemSpecImpl<&P128> for P128 {
    open spec fn obeys_rem_spec() -> bool {
        true
    }

    open spec fn rem_req(self, other: &P128) -> bool {
        other.0 != 0
    }

    open spec fn rem_spec(self, other: &P128) -> P128 {
        P128(p128_divrem_spec(self.0, other.0).1)
    }
}

impl core::ops::Rem<&P128> for &P128 {
    type Output = P128;

    fn rem(self, other: &P128) -> (r: P128) {
        P128::naive_rem(*self, *other)
    }
}

impl vstd::std_specs::ops::RemSpecImpl<&P128> for &P128 {
    open spec fn obeys_rem_spec() -> bool {
        true
    }

    open spec fn rem_req(self, other: &P128) -> bool {
        other.0 != 0
    }

    open spec fn rem_spec(self, other: &P128) -> P128 {
        P128(p128_divrem_spec(self.0, other.0).1)
    }
}

} // verus!
