//! Diffie-Hellman key agreement over the integers modulo a prime `p` that
//! fits in 64 bits.
use vstd::prelude::*;
use vstd::arithmetic::power::{lemma_pow_adds, lemma_pow_mod_noop, lemma_pow_multiplies, lemma_square_is_pow2, pow};
use vstd::arithmetic::div_mod::{lemma_mod_bound, lemma_mul_mod_noop_left, lemma_mul_mod_noop_right, lemma_small_mod};
use vstd::arithmetic::mul::lemma_mul_is_associative;

verus! {

#[verifier::external_type_specification]
#[verifier::external_body]
pub struct ExRand64(oorandom::Rand64);

/// Relies on `oorandom::Rand64::new`: a generator seeded from `seed`.
pub assume_specification[ oorandom::Rand64::new ](seed: u128) -> oorandom::Rand64;

/// Relies on `oorandom::Rand64::rand_range`: a value in `range`, which must
/// not be empty (the width `end - start` is computed first).
pub assume_specification[ oorandom::Rand64::rand_range ](
    rng: &mut oorandom::Rand64,
    range: core::ops::Range<u64>,
) -> (r: u64)
    requires
        range.start < range.end,
    ensures
        range.start <= r < range.end,
;

/// `base^exp mod m`, except that an empty product is 1 whatever `m`.
pub open spec fn mod_pow_spec(base: int, exp: nat, m: int) -> int {
    if exp == 0 {
        1
    } else {
        pow(base, exp) % m
    }
}

proof fn lemma_square_step(r: int, b: int, e: nat, m: int)
    requires
        m > 0,
        r >= 0,
        b >= 0,
    ensures
        (r * pow(b, e)) % m == ((if e % 2 == 1 { (r * b) % m } else { r }) * pow((b * b) % m, e / 2)) % m,
{
    let half = e / 2;
    let p = pow(b * b, half);
    lemma_pow_adds(b, e % 2, 2 * half);
    assert(e == e % 2 + 2 * half);
    lemma_pow_multiplies(b, 2, half);
    lemma_square_is_pow2(b);
    assert(pow(b, 2 * half) == p);
    lemma_pow_mod_noop(b * b, half, m);
    let q = pow((b * b) % m, half);
    if e % 2 == 1 {
        assert(pow(b, 1) == b) by {
            lemma_pow_adds(b, 0, 1);
            reveal(pow);
        }
        assert(pow(b, e) == b * p);
        lemma_mul_is_associative(r, b, p);
        lemma_mul_mod_noop_left(r * b, q, m);
        lemma_mul_mod_noop_right((r * b) % m, q, m);
        lemma_mul_mod_noop_left(r * b, q % m, m);
        lemma_mul_mod_noop_right(r * b, p, m);
    } else {
        assert(pow(b, 0) == 1) by {
            reveal(pow);
        }
        assert(pow(b, e) == p);
        lemma_mul_mod_noop_right(r, q, m);
        lemma_mul_mod_noop_right(r, p, m);
    }
}

/// `base^exp mod modular` by square-and-multiply in 128-bit arithmetic.
fn modular_exponentiation(base: u128, exp: u64, modular: u64) -> (r: u64)
    requires
        modular > 0,
        base <= u64::MAX,
    ensures
        r == mod_pow_spec(base as int, exp as nat, modular as int),
{
    let mut e = exp;
    let mut b = base;
    let mut result: u128 = 1;
    let m = modular as u128;
    while e > 0
        invariant
            m == modular as u128,
            m > 0,
            b <= u64::MAX,
            result <= u64::MAX,
            e <= exp,
            e == 0 && exp > 0 ==> result < m,
            e == exp ==> result == 1,
            exp > 0 ==> (result * pow(b as int, e as nat)) % (m as int) == pow(base as int, exp as nat) % (m as int),
        decreases e,
    {
        proof {
            lemma_square_step(result as int, b as int, e as nat, m as int);
            lemma_mod_bound((result * b) as int, m as int);
            lemma_mod_bound((b * b) as int, m as int);
        }
        assert(result * b <= u64::MAX as u128 * u64::MAX as u128) by (nonlinear_arith)
            requires result <= u64::MAX, b <= u64::MAX;
        assert(b * b <= u64::MAX as u128 * u64::MAX as u128) by (nonlinear_arith)
            requires b <= u64::MAX;
        if e % 2 == 1 {
            result = (result * b) % m;
        }
        b = (b * b) % m;
        e = e / 2;
    }
    proof {
        if exp > 0 {
            assert(pow(b as int, 0) == 1) by {
                reveal(pow);
            }
            assert(e == 0);
            assert((result as int) * pow(b as int, e as nat) == result as int);
            lemma_small_mod(result as nat, m as nat);
            assert(result as int == pow(base as int, exp as nat) % (m as int));
        }
    }
    result as u64
}

/// The public key `g^a mod p` for the private key `a`.
pub fn public_key(p: u64, g: u64, a: u64) -> (r: u64)
    requires
        p > 0,
    ensures
        r == mod_pow_spec(g as int, a as nat, p as int),
{
    modular_exponentiation(g as u128, a, p)
}

/// The shared secret `B^a mod p` from the other side's public key `B` and
/// the private key `a`.
pub fn secret(p: u64, b_pub: u64, a: u64) -> (r: u64)
    requires
        p > 0,
    ensures
        r == mod_pow_spec(b_pub as int, a as nat, p as int),
{
    modular_exponentiation(b_pub as u128, a, p)
}

/// Both parties derive the same secret: raising the other side's public key
/// `g^b` to one's own positive private key `a` gives `g^(ab) mod p`, as does
/// the mirror computation.
pub proof fn lemma_shared_secret_agrees(p: u64, g: u64, a: u64, b: u64)
    requires
        p > 0,
        a > 0,
        b > 0,
    ensures
        mod_pow_spec(mod_pow_spec(g as int, b as nat, p as int), a as nat, p as int)
            == mod_pow_spec(mod_pow_spec(g as int, a as nat, p as int), b as nat, p as int),
{
    let (gi, ai, bi, pi) = (g as int, a as nat, b as nat, p as int);
    lemma_pow_mod_noop(pow(gi, bi), ai, pi);
    lemma_pow_mod_noop(pow(gi, ai), bi, pi);
    lemma_pow_multiplies(gi, bi, ai);
    lemma_pow_multiplies(gi, ai, bi);
    assert(bi * ai == ai * bi) by (nonlinear_arith);
}

/// A private key in `[2, p)` drawn from a generator seeded with `seed`.
pub fn private_key_from_seed(p: u64, seed: u128) -> (r: u64)
    requires
        p > 2,
    ensures
        2 <= r < p,
{
    let mut rng = oorandom::Rand64::new(seed);
    rng.rand_range(2..p)
}

} // verus!
