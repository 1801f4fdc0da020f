//! Shamir's secret sharing over GF(2^8): each secret byte becomes the
//! constant term of a polynomial of degree `k - 1`, and share `i` holds the
//! values of those polynomials at `x = i + 1`; any `k` shares recover the
//! secret by Lagrange interpolation at zero.
use vstd::prelude::*;
use crate::gf::{gf_add, gf_checked_div, gf_div_of, gf_mul, gf_mul_of};

verus! {

#[verifier::external_type_specification]
#[verifier::external_body]
pub struct ExRand32(oorandom::Rand32);

/// Relies on `oorandom::Rand32::new`: a generator seeded from `seed`.
pub assume_specification[ oorandom::Rand32::new ](seed: u64) -> oorandom::Rand32;

/// Relies on `oorandom::Rand32::rand_range`: a value in `range`, which must
/// not be empty (the width `end - start` is computed first).
pub assume_specification[ oorandom::Rand32::rand_range ](
    rng: &mut oorandom::Rand32,
    range: core::ops::Range<u32>,
) -> (r: u32)
    requires
        range.start < range.end,
    ensures
        range.start <= r < range.end,
;

/// The value at `x` of the polynomial `f`, constant term first.
pub open spec fn share_eval_spec(f: Seq<u8>, x: u8) -> u8
    decreases f.len(),
{
    if f.len() == 0 {
        0
    } else {
        gf_add(gf_mul_of(share_eval_spec(f.drop_first(), x), x), f[0])
    }
}

/// A polynomial that sharing may draw for the secret byte `s`: `s` as its
/// constant term and `degree` further coefficients, each in `1..255`.
pub open spec fn valid_share_poly(f: Seq<u8>, s: u8, degree: int) -> bool {
    &&& f.len() == degree + 1
    &&& f[0] == s
    &&& forall|j: int| 1 <= j < f.len() ==> 1 <= #[trigger] f[j] < 255
}

/// The Lagrange basis factor of point `i` over the first `m` points:
/// the product of `x_j / (x_j - x_i)` for `j != i`.
pub open spec fn basis_loop(xs: Seq<u8>, i: int, m: nat) -> u8
    decreases m,
{
    if m == 0 {
        1
    } else {
        let l = basis_loop(xs, i, (m - 1) as nat);
        let j = m - 1;
        if j != i {
            gf_mul_of(l, gf_div_of(xs[j], gf_add(xs[j], xs[i])))
        } else {
            l
        }
    }
}

/// The interpolated value at zero over the first `m` points.
pub open spec fn interpolate_loop(xs: Seq<u8>, ys: Seq<u8>, m: nat) -> u8
    decreases m,
{
    if m == 0 {
        0
    } else {
        let i = m - 1;
        gf_add(interpolate_loop(xs, ys, (m - 1) as nat), gf_mul_of(basis_loop(xs, i, xs.len()), ys[i]))
    }
}

/// The value at zero of the polynomial through the points `(xs[i], ys[i])`.
pub open spec fn interpolate_spec(xs: Seq<u8>, ys: Seq<u8>) -> u8 {
    interpolate_loop(xs, ys, xs.len())
}

pub open spec fn distinct(xs: Seq<u8>) -> bool {
    forall|i: int, j: int| 0 <= i < xs.len() && 0 <= j < xs.len() && i != j ==> xs[i] != xs[j]
}

/// Column `c` of the shares: byte `c` of each.
pub open spec fn column(shares: Seq<Vec<u8>>, c: int) -> Seq<u8> {
    Seq::new(shares.len(), |s: int| shares[s]@[c])
}

/// The secret that `shares` recover: byte `i` interpolated from column
/// `i + 1`, with the x coordinates in column 0.
pub open spec fn reconstruct_spec(shares: Seq<Vec<u8>>) -> Seq<u8> {
    let len = if shares.len() == 0 { 0 } else { shares[0]@.len() as int };
    if len == 0 {
        Seq::empty()
    } else {
        Seq::new((len - 1) as nat, |i: int| interpolate_spec(column(shares, 0), column(shares, i + 1)))
    }
}

pub open spec fn same_lengths(shares: Seq<Vec<u8>>) -> bool {
    forall|s: int| 0 <= s < shares.len() ==> (#[trigger] shares[s])@.len() == shares[0]@.len()
}

fn poly_random(rng: &mut oorandom::Rand32, secret: u8, degree: usize) -> (f: Vec<u8>)
    ensures
        valid_share_poly(f@, secret, degree as int),
{
    let mut f: Vec<u8> = Vec::new();
    f.push(secret);
    let mut d: usize = 0;
    while d < degree
        invariant
            d <= degree,
            f@.len() == d + 1,
            f@[0] == secret,
            forall|j: int| 1 <= j < f@.len() ==> 1 <= #[trigger] f@[j] < 255,
        decreases degree - d,
    {
        let num = rng.rand_range(1..255) as u8;
        f.push(num);
        d += 1;
    }
    f
}

fn poly_eval(f: &Vec<u8>, x: u8) -> (y: u8)
    ensures
        y == share_eval_spec(f@, x),
{
    let mut y: u8 = 0;
    let mut i: usize = f.len();
    while i > 0
        invariant
            i <= f.len(),
            y == share_eval_spec(f@.skip(i as int), x),
        decreases i,
    {
        i -= 1;
        assert(f@.skip(i as int).drop_first() == f@.skip(i as int + 1));
        y = gf_mul(y, x) ^ f[i];
    }
    assert(f@.skip(0) == f@);
    y
}

fn poly_interpolate(xs: &Vec<u8>, ys: &Vec<u8>) -> (y: u8)
    requires
        xs.len() == ys.len(),
        distinct(xs@),
    ensures
        y == interpolate_spec(xs@, ys@),
{
    let n = xs.len();
    let mut y: u8 = 0;
    let mut i: usize = 0;
    while i < n
        invariant
            n == xs.len(),
            n == ys.len(),
            distinct(xs@),
            i <= n,
            y == interpolate_loop(xs@, ys@, i as nat),
        decreases n - i,
    {
        let mut li: u8 = 1;
        let mut j: usize = 0;
        while j < n
            invariant
                n == xs.len(),
                distinct(xs@),
                i < n,
                j <= n,
                li == basis_loop(xs@, i as int, j as nat),
            decreases n - j,
        {
            if i != j {
                let (x0, x1) = (xs[i], xs[j]);
                let den = x1 ^ x0;
                assert(x1 != x0 ==> x1 ^ x0 != 0) by (bit_vector);
                let q = match gf_checked_div(x1, den) {
                    Some(q) => q,
                    None => 0,
                };
                li = gf_mul(li, q);
            }
            j += 1;
        }
        y = y ^ gf_mul(li, ys[i]);
        i += 1;
    }
    y
}

/// Splits `secret` into `n` shares of which any `k` recover it. Share `i`
/// is `i + 1` followed by, for each secret byte, the value at `i + 1` of a
/// polynomial of degree `k - 1` whose constant term is that byte.
pub fn generate(secret: &[u8], n: usize, k: usize) -> (shares: Vec<Vec<u8>>)
    requires
        n <= 255,
        k >= 1,
    ensures
        shares@.len() == n,
        forall|i: int| 0 <= i < n ==> shares@[i]@.len() == secret.len() + 1 && shares@[i]@[0] == i + 1,
        exists|fs: Seq<Seq<u8>>| {
            &&& fs.len() == secret.len()
            &&& forall|b: int| 0 <= b < secret.len() ==> valid_share_poly(#[trigger] fs[b], secret[b], k - 1)
            &&& forall|i: int, b: int| 0 <= i < n && 0 <= b < secret.len()
                ==> #[trigger] shares@[i]@[b + 1] == share_eval_spec(fs[b], (i + 1) as u8)
        },
{
    let mut rng = oorandom::Rand32::new(0);
    let mut polys: Vec<Vec<u8>> = Vec::new();
    let mut b: usize = 0;
    while b < secret.len()
        invariant
            b <= secret.len(),
            k >= 1,
            polys@.len() == b,
            forall|t: int| 0 <= t < b ==> valid_share_poly(#[trigger] polys@[t]@, secret[t], k - 1),
        decreases secret.len() - b,
    {
        let f = poly_random(&mut rng, secret[b], k - 1);
        polys.push(f);
        b += 1;
    }
    let ghost fs = Seq::new(polys@.len(), |t: int| polys@[t]@);
    let mut shares: Vec<Vec<u8>> = Vec::new();
    let mut i: usize = 0;
    while i < n
        invariant
            n <= 255,
            i <= n,
            polys@.len() == secret.len(),
            fs == Seq::new(polys@.len(), |t: int| polys@[t]@),
            shares@.len() == i,
            forall|s: int| 0 <= s < i ==> shares@[s]@.len() == secret.len() + 1 && shares@[s]@[0] == s + 1,
            forall|s: int, t: int| 0 <= s < i && 0 <= t < secret.len()
                ==> #[trigger] shares@[s]@[t + 1] == share_eval_spec(fs[t], (s + 1) as u8),
        decreases n - i,
    {
        let x = (i + 1) as u8;
        let mut share: Vec<u8> = Vec::new();
        share.push(x);
        let mut t: usize = 0;
        while t < polys.len()
            invariant
                t <= polys@.len(),
                share@.len() == t + 1,
                share@[0] == x,
                fs == Seq::new(polys@.len(), |t: int| polys@[t]@),
                forall|u: int| 0 <= u < t ==> share@[u + 1] == share_eval_spec(fs[u], x),
            decreases polys.len() - t,
        {
            let v = poly_eval(&polys[t], x);
            share.push(v);
            t += 1;
        }
        shares.push(share);
        i += 1;
    }
    assert(forall|t: int| 0 <= t < secret.len() ==> valid_share_poly(#[trigger] fs[t], secret[t], k - 1));
    assert({
        &&& fs.len() == secret.len()
        &&& forall|b: int| 0 <= b < secret.len() ==> valid_share_poly(#[trigger] fs[b], secret[b], k - 1)
        &&& forall|i: int, b: int| 0 <= i < n && 0 <= b < secret.len()
            ==> #[trigger] shares@[i]@[b + 1] == share_eval_spec(fs[b], (i + 1) as u8)
    });
    shares
}

/// Recovers the secret from shares of equal length: the x coordinates are
/// their first bytes, which must be distinct.
pub fn reconstruct(shares: &[Vec<u8>]) -> (secret: Vec<u8>)
    requires
        same_lengths(shares@),
        shares.len() > 0 && shares[0]@.len() > 0 ==> distinct(column(shares@, 0)),
    ensures
        secret@ == reconstruct_spec(shares@),
{
    let mut secret: Vec<u8> = Vec::new();
    let len = if shares.len() == 0 { 0 } else { shares[0].len() };
    if len == 0 {
        return secret;
    }
    let mut xs: Vec<u8> = Vec::new();
    let mut s: usize = 0;
    while s < shares.len()
        invariant
            s <= shares.len(),
            len == shares@[0]@.len(),
            len > 0,
            same_lengths(shares@),
            xs@ == column(shares@, 0).take(s as int),
        decreases shares.len() - s,
    {
        xs.push(shares[s][0]);
        s += 1;
    }
    assert(xs@ == column(shares@, 0));
    let mut i: usize = 1;
    while i < len
        invariant
            1 <= i <= len,
            len == shares@[0]@.len(),
            same_lengths(shares@),
            xs@ == column(shares@, 0),
            distinct(xs@),
            secret@.len() == i - 1,
            forall|t: int| 0 <= t < i - 1 ==> secret@[t] == interpolate_spec(column(shares@, 0), column(shares@, t + 1)),
        decreases len - i,
    {
        let mut ys: Vec<u8> = Vec::new();
        let mut s: usize = 0;
        while s < shares.len()
            invariant
                s <= shares.len(),
                i < len,
                len == shares@[0]@.len(),
                same_lengths(shares@),
                ys@ == column(shares@, i as int).take(s as int),
            decreases shares.len() - s,
        {
            ys.push(shares[s][i]);
            s += 1;
        }
        assert(ys@ == column(shares@, i as int));
        secret.push(poly_interpolate(&xs, &ys));
        i += 1;
    }
    assert(secret@ == reconstruct_spec(shares@));
    secret
}

} // verus!
