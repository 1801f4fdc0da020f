//! Reed-Solomon codes over GF(2^8).
//!
//! A codeword is `DATA_SIZE` data bytes followed by `ECC_SIZE` parity bytes
//! (or a shorter message, treated as left-padded with zeros). Polynomials are
//! held big-endian: index 0 is the coefficient of the highest power.
use vstd::prelude::*;
use crate::gf::{
    gf_add, gf_checked_div, gf_div_of, gf_mul, gf_mul_of, gf_pow, gf_pow_of, gf_recip, gf_recip_of,
    GENERATOR,
};

verus! {

pub const DATA_SIZE: usize = 223;

pub const ECC_SIZE: usize = 32;

pub const BLOCK_SIZE: usize = DATA_SIZE + ECC_SIZE;

/// The single failure of the decoders: more errors or erasures than the code
/// can correct, or a correction that did not yield a codeword.
#[derive(Debug, Clone, Copy, PartialEq, Eq, Structural)]
pub enum Error {
    TooManyErrors,
}

impl Error {
    /// A human-readable description of the error.
    pub fn as_str(&self) -> (r: &'static str) {
        match self {
            Error::TooManyErrors => "Too many errors to correct",
        }
    }
}

/// The value of the big-endian polynomial `f` at `x` (Horner's rule).
pub open spec fn poly_eval_spec(f: Seq<u8>, x: u8) -> u8
    decreases f.len(),
{
    if f.len() == 0 {
        0
    } else {
        gf_add(gf_mul_of(poly_eval_spec(f.drop_last(), x), x), f.last())
    }
}

/// `GENERATOR` raised to the power `i`.
pub open spec fn gen_pow(i: int) -> u8 {
    gf_pow_of(GENERATOR, i as u8)
}

/// The syndromes of a received word: its values at the first `ECC_SIZE`
/// powers of the generator.
pub open spec fn syndromes_spec(cw: Seq<u8>) -> Seq<u8> {
    Seq::new(ECC_SIZE as nat, |i: int| poly_eval_spec(cw, gen_pow(i)))
}

pub open spec fn all_zero(s: Seq<u8>) -> bool {
    forall|i: int| 0 <= i < s.len() ==> s[i] == 0
}

/// A word is a codeword when all its syndromes vanish.
pub open spec fn is_codeword(cw: Seq<u8>) -> bool {
    all_zero(syndromes_spec(cw))
}

fn poly_eval(f: &[u8], x: u8) -> (y: u8)
    ensures
        y == poly_eval_spec(f@, x),
{
    let mut y: u8 = 0;
    let mut i: usize = 0;
    while i < f.len()
        invariant
            i <= f.len(),
            y == poly_eval_spec(f@.take(i as int), x),
        decreases f.len() - i,
    {
        assert(f@.take(i as int + 1).drop_last() == f@.take(i as int));
        y = gf_mul(y, x) ^ f[i];
        i += 1;
    }
    assert(f@.take(f.len() as int) == f@);
    y
}

fn find_syndromes(f: &[u8]) -> (s: Vec<u8>)
    ensures
        s@ == syndromes_spec(f@),
{
    let mut s: Vec<u8> = Vec::new();
    let mut i: usize = 0;
    while i < ECC_SIZE
        invariant
            i <= ECC_SIZE,
            s@.len() == i,
            forall|k: int| 0 <= k < i ==> s@[k] == syndromes_spec(f@)[k],
        decreases ECC_SIZE - i,
    {
        let x = gf_pow(GENERATOR, i as u8);
        s.push(poly_eval(f, x));
        i += 1;
    }
    assert(s@ == syndromes_spec(f@));
    s
}

fn all_zeros(s: &[u8]) -> (r: bool)
    ensures
        r == all_zero(s@),
{
    let mut i: usize = 0;
    while i < s.len()
        invariant
            i <= s.len(),
            forall|k: int| 0 <= k < i ==> s@[k] == 0,
        decreases s.len() - i,
    {
        if s[i] != 0 {
            return false;
        }
        i += 1;
    }
    true
}

/// Whether `codeword` is a valid codeword, that is whether all its
/// syndromes are zero.
pub fn is_correct(codeword: &[u8]) -> (r: bool)
    ensures
        r == is_codeword(codeword@),
{
    let s = find_syndromes(codeword);
    all_zeros(&s)
}


/// The big-endian polynomial `p` multiplied by `a*x + b`, kept at the length
/// of `p` (the coefficient that would overflow is dropped).
pub open spec fn mul_linear_spec(p: Seq<u8>, a: u8, b: u8) -> Seq<u8> {
    Seq::new(
        p.len(),
        |i: int|
            if i + 1 == p.len() {
                gf_mul_of(b, p[i])
            } else {
                gf_add(gf_mul_of(b, p[i]), gf_mul_of(a, p[i + 1]))
            },
    )
}

/// The product of the first `k` factors `(x - g^i)` of the generator
/// polynomial, as a big-endian polynomial of `ECC_SIZE + 1` coefficients.
pub open spec fn gen_poly_spec(k: nat) -> Seq<u8>
    decreases k,
{
    if k == 0 {
        Seq::new((ECC_SIZE + 1) as nat, |i: int| if i == ECC_SIZE { 1u8 } else { 0u8 })
    } else {
        mul_linear_spec(gen_poly_spec((k - 1) as nat), 1, gen_pow(k - 1))
    }
}

/// One step of polynomial long division of `f` by `g` at position `i`:
/// the quotient coefficient replaces `f[i]` and its multiple of `g` is
/// subtracted from the following coefficients.
pub open spec fn divrem_step(f: Seq<u8>, g: Seq<u8>, i: int) -> Seq<u8> {
    if f[i] != 0 {
        let q = gf_div_of(f[i], g[0]);
        Seq::new(
            f.len(),
            |k: int|
                if k == i {
                    q
                } else if i < k < i + g.len() {
                    gf_add(f[k], gf_mul_of(q, g[k - i]))
                } else {
                    f[k]
                },
        )
    } else {
        f
    }
}

/// Long division of `f` by `g` carried out over the first `n` positions:
/// quotient coefficients on the left, the remainder in the last
/// `g.len() - 1` positions once `n == f.len() - g.len() + 1`.
pub open spec fn divrem_spec(f: Seq<u8>, g: Seq<u8>, n: nat) -> Seq<u8>
    decreases n,
{
    if n == 0 {
        f
    } else {
        divrem_step(divrem_spec(f, g, (n - 1) as nat), g, n - 1)
    }
}

/// The codeword that encoding `m` produces: its data bytes, then the
/// remainder of the zero-padded message divided by the generator polynomial.
pub open spec fn encode_spec(m: Seq<u8>) -> Seq<u8> {
    let d = m.len() - ECC_SIZE;
    let padded = m.take(d) + Seq::new(ECC_SIZE as nat, |i: int| 0u8);
    let r = divrem_spec(padded, gen_poly_spec(ECC_SIZE as nat), d as nat);
    m.take(d) + r.skip(d)
}

fn poly_mul_linear(p: &[u8], a: u8, b: u8) -> (r: Vec<u8>)
    requires
        p.len() >= 1,
    ensures
        r@ == mul_linear_spec(p@, a, b),
        forall|i: int| 0 <= i < p.len() && p@[i] == 0 && (i + 1 == p.len() || p@[i + 1] == 0) ==> r@[i] == 0,
        forall|i: int| 0 <= i < p.len() && p@[i] == 0 && i + 1 < p.len() && p@[i + 1] == 1 && a == 1 ==> r@[i] == 1,
{
    let n = p.len();
    let mut r: Vec<u8> = Vec::new();
    let mut i: usize = 0;
    while i < n
        invariant
            n == p.len(),
            i <= n,
            r@.len() == i,
            forall|k: int| 0 <= k < i ==> r@[k] == mul_linear_spec(p@, a, b)[k],
            forall|k: int| 0 <= k < i && p@[k] == 0 && (k + 1 == n || p@[k + 1] == 0) ==> r@[k] == 0,
            forall|k: int| 0 <= k < i && p@[k] == 0 && k + 1 < n && p@[k + 1] == 1 && a == 1 ==> r@[k] == 1,
        decreases n - i,
    {
        let lo = gf_mul(b, p[i]);
        if i + 1 == n {
            r.push(lo);
        } else {
            let hi = gf_mul(a, p[i + 1]);
            proof {
                let (x, y) = (lo, hi);
                assert(x == 0 && y == 0 ==> x ^ y == 0) by (bit_vector);
                assert(x == 0 && y == 1 ==> x ^ y == 1) by (bit_vector);
            }
            r.push(lo ^ hi);
        }
        i += 1;
    }
    assert(r@ == mul_linear_spec(p@, a, b));
    r
}

/// The generator polynomial `G(x) = (x - g^0)(x - g^1)...(x - g^(ECC_SIZE-1))`,
/// big-endian and monic.
pub fn generator_poly() -> (g: Vec<u8>)
    ensures
        g@ == gen_poly_spec(ECC_SIZE as nat),
        g@.len() == ECC_SIZE + 1,
        g@[0] == 1,
{
    let mut g: Vec<u8> = vec![0u8; ECC_SIZE + 1];
    g.set(ECC_SIZE, 1);
    assert(g@ == gen_poly_spec(0));
    let mut i: usize = 0;
    while i < ECC_SIZE
        invariant
            i <= ECC_SIZE,
            g@ == gen_poly_spec(i as nat),
            g@.len() == ECC_SIZE + 1,
            g@[ECC_SIZE - i] == 1,
            forall|k: int| 0 <= k < ECC_SIZE - i ==> g@[k] == 0,
        decreases ECC_SIZE - i,
    {
        let root = gf_pow(GENERATOR, i as u8);
        g = poly_mul_linear(&g, 1, root);
        i += 1;
    }
    g
}

fn poly_divrem(f: &mut [u8], g: &[u8])
    requires
        old(f).len() >= g.len(),
        g.len() >= 1,
        g[0] != 0,
    ensures
        final(f)@ == divrem_spec(old(f)@, g@, (old(f).len() - g.len() + 1) as nat),
        final(f)@.len() == old(f)@.len(),
{
    let ghost f0 = f@;
    let steps = f.len() - g.len() + 1;
    let mut i: usize = 0;
    while i < steps
        invariant
            steps == f.len() - g.len() + 1,
            f.len() == f0.len(),
            g.len() >= 1,
            g[0] != 0,
            i <= steps,
            f@ == divrem_spec(f0, g@, i as nat),
        decreases steps - i,
    {
        let ghost fi = f@;
        if f[i] != 0 {
            let q = match gf_checked_div(f[i], g[0]) {
                Some(q) => q,
                None => 0,
            };
            f[i] = q;
            let mut j: usize = 1;
            while j < g.len()
                invariant
                    1 <= j <= g.len(),
                    i < steps,
                    steps == f.len() - g.len() + 1,
                    f.len() == fi.len(),
                    fi[i as int] != 0,
                    q == gf_div_of(fi[i as int], g@[0]),
                    forall|k: int| 0 <= k < f.len() ==> f@[k] == (
                        if k == i {
                            q
                        } else if i < k < i + j {
                            gf_add(fi[k], gf_mul_of(q, g@[k - i]))
                        } else {
                            fi[k]
                        }),
                decreases g.len() - j,
            {
                let t = gf_mul(q, g[j]);
                f[i + j] = f[i + j] ^ t;
                j += 1;
            }
            assert(f@ == divrem_step(fi, g@, i as int));
        }
        i += 1;
    }
}

/// Encodes `message` in place: its first `message.len() - ECC_SIZE` bytes
/// are the data, and the last `ECC_SIZE` bytes are overwritten with parity,
/// the remainder of the (zero-padded) message divided by the generator
/// polynomial.
pub fn encode(message: &mut [u8])
    requires
        ECC_SIZE <= old(message).len() <= BLOCK_SIZE,
    ensures
        final(message)@ == encode_spec(old(message)@),
{
    let n = message.len();
    let data_len = n - ECC_SIZE;
    let mut divrem: Vec<u8> = Vec::new();
    let mut i: usize = 0;
    while i < n
        invariant
            n == message.len(),
            data_len == n - ECC_SIZE,
            i <= n,
            divrem@.len() == i,
            forall|k: int| 0 <= k < i ==> divrem@[k] == (if k < data_len { message@[k] } else { 0u8 }),
        decreases n - i,
    {
        if i < data_len {
            divrem.push(message[i]);
        } else {
            divrem.push(0);
        }
        i += 1;
    }
    assert(divrem@ == message@.take(data_len as int) + Seq::new(ECC_SIZE as nat, |i: int| 0u8));
    let g = generator_poly();
    if data_len > 0 {
        poly_divrem(divrem.as_mut_slice(), &g);
    }
    let ghost m0 = message@;
    let ghost r = divrem@;
    let mut k: usize = data_len;
    while k < n
        invariant
            n == message.len(),
            data_len <= k <= n,
            r.len() == n,
            divrem@ == r,
            forall|t: int| 0 <= t < n ==> message@[t] == (if t < k { if t < data_len { m0[t] } else { r[t] } } else { m0[t] }),
        decreases n - k,
    {
        message[k] = divrem[k];
        k += 1;
    }
    assert(message@ == encode_spec(m0));
}


/// The locator value `X_j = g^(n-1-j)` of position `j` in a word of length `n`.
pub open spec fn loc_value(n: int, j: int) -> u8 {
    gen_pow(n - 1 - j)
}

fn locator_value(n: usize, j: usize) -> (x: u8)
    requires
        j < n <= BLOCK_SIZE,
    ensures
        x == loc_value(n as int, j as int),
        x != 0,
{
    gf_pow(GENERATOR, (n - 1 - j) as u8)
}

/// One Forney transform of a syndrome sequence by the locator value `x`.
pub open spec fn forney_step(s: Seq<u8>, x: u8) -> Seq<u8> {
    Seq::new(
        s.len(),
        |i: int| if i + 1 < s.len() { gf_add(s[i + 1], gf_mul_of(s[i], x)) } else { s[i] },
    )
}

/// The syndromes transformed by the first `k` erasures of `e`.
pub open spec fn forney_fold(s: Seq<u8>, n: int, e: Seq<usize>, k: nat) -> Seq<u8>
    decreases k,
{
    if k == 0 {
        s
    } else {
        forney_step(forney_fold(s, n, e, (k - 1) as nat), loc_value(n, e[k - 1] as int))
    }
}

/// The Forney syndromes: the influence of the erasures `e` removed, and one
/// trailing syndrome dropped per erasure.
pub open spec fn forney_syndromes_spec(s: Seq<u8>, n: int, e: Seq<usize>) -> Seq<u8> {
    forney_fold(s, n, e, e.len()).take(s.len() - e.len())
}

pub open spec fn positions_in(e: Seq<usize>, n: int) -> bool {
    forall|k: int| 0 <= k < e.len() ==> e[k] < n
}

fn find_forney_syndromes(n: usize, s: &[u8], erasures: &[usize]) -> (r: Vec<u8>)
    requires
        n <= BLOCK_SIZE,
        s.len() == ECC_SIZE,
        erasures.len() <= s.len(),
        positions_in(erasures@, n as int),
    ensures
        r@ == forney_syndromes_spec(s@, n as int, erasures@),
        r@.len() == s.len() - erasures.len(),
{
    let mut t: Vec<u8> = Vec::new();
    let mut i: usize = 0;
    while i < s.len()
        invariant
            i <= s.len(),
            t@ == s@.take(i as int),
        decreases s.len() - i,
    {
        t.push(s[i]);
        i += 1;
    }
    assert(t@ == s@);
    let mut k: usize = 0;
    while k < erasures.len()
        invariant
            n <= BLOCK_SIZE,
            k <= erasures.len(),
            positions_in(erasures@, n as int),
            t@ == forney_fold(s@, n as int, erasures@, k as nat),
            t@.len() == s@.len(),
            s@.len() == ECC_SIZE,
        decreases erasures.len() - k,
    {
        let x = locator_value(n, erasures[k]);
        let ghost t0 = t@;
        let mut i: usize = 0;
        while i + 1 < t.len()
            invariant
                t@.len() == t0.len(),
                t0.len() == ECC_SIZE,
                i <= t@.len(),
                forall|m: int| 0 <= m < t@.len() ==> t@[m] == (if m < i { forney_step(t0, x)[m] } else { t0[m] }),
            decreases t.len() - i,
        {
            let v = t[i + 1] ^ gf_mul(t[i], x);
            t.set(i, v);
            i += 1;
        }
        assert(t@ == forney_step(t0, x));
        k += 1;
    }
    t.truncate(s.len() - erasures.len());
    assert(t@ == forney_syndromes_spec(s@, n as int, erasures@));
    t
}

/// The constant polynomial 1, big-endian in `len` coefficients.
pub open spec fn poly_one(len: nat) -> Seq<u8> {
    Seq::new(len, |i: int| if i + 1 == len { 1u8 } else { 0u8 })
}

/// The product of the factors `(1 + x*X_j)` over the first `k` positions of
/// `e`, in `e.len() + 1` coefficients.
pub open spec fn erasure_fold(n: int, e: Seq<usize>, k: nat) -> Seq<u8>
    decreases k,
{
    if k == 0 {
        poly_one(e.len() + 1)
    } else {
        mul_linear_spec(erasure_fold(n, e, (k - 1) as nat), loc_value(n, e[k - 1] as int), 1)
    }
}

/// The erasure locator `∏ (1 - x*X_j)` of the positions `e`.
pub open spec fn erasure_locator_spec(n: int, e: Seq<usize>) -> Seq<u8> {
    erasure_fold(n, e, e.len())
}

fn find_erasure_locator(n: usize, erasures: &[usize]) -> (r: Vec<u8>)
    requires
        n <= BLOCK_SIZE,
        erasures.len() < usize::MAX,
        positions_in(erasures@, n as int),
    ensures
        r@ == erasure_locator_spec(n as int, erasures@),
        r@.len() == erasures.len() + 1,
{
    let len = erasures.len() + 1;
    let mut lam: Vec<u8> = vec![0u8; len];
    lam.set(len - 1, 1);
    assert(lam@ == poly_one(len as nat));
    let mut k: usize = 0;
    while k < erasures.len()
        invariant
            n <= BLOCK_SIZE,
            k <= erasures.len(),
            positions_in(erasures@, n as int),
            lam@ == erasure_fold(n as int, erasures@, k as nat),
            lam@.len() == erasures.len() + 1,
        decreases erasures.len() - k,
    {
        let x = locator_value(n, erasures[k]);
        lam = poly_mul_linear(&lam, x, 1);
        k += 1;
    }
    lam
}


/// `p` multiplied by `x` within its length: the leading coefficient wraps
/// around to the constant term.
pub open spec fn rotate_spec(p: Seq<u8>) -> Seq<u8> {
    p.drop_first().push(p[0])
}

pub open spec fn scale_spec(p: Seq<u8>, c: u8) -> Seq<u8> {
    Seq::new(p.len(), |i: int| gf_mul_of(p[i], c))
}

pub open spec fn add_spec(p: Seq<u8>, q: Seq<u8>) -> Seq<u8> {
    Seq::new(p.len(), |i: int| gf_add(p[i], q[i]))
}

/// The discrepancy `S[i] + Σ_{t=1..j} Λ_t S[i-t]` of the locator `lam`.
pub open spec fn discrepancy(lam: Seq<u8>, s: Seq<u8>, i: int, j: nat) -> u8
    decreases j,
{
    if j == 0 {
        s[i]
    } else {
        gf_add(
            discrepancy(lam, s, i, (j - 1) as nat),
            gf_mul_of(lam[lam.len() - 1 - j], s[i - j]),
        )
    }
}

/// One Berlekamp-Massey iteration at syndrome index `i` on the state
/// (current locator, previous locator, error count).
pub open spec fn bm_step(st: (Seq<u8>, Seq<u8>, nat), s: Seq<u8>, i: int) -> (Seq<u8>, Seq<u8>, nat) {
    let delta = discrepancy(st.0, s, i, st.2);
    let p1 = rotate_spec(st.1);
    if delta == 0 {
        (st.0, p1, st.2)
    } else if 2 * st.2 <= i {
        let lam = scale_spec(p1, delta);
        let prev = scale_spec(st.0, gf_recip_of(delta));
        (add_spec(lam, scale_spec(prev, delta)), prev, (i + 1 - st.2) as nat)
    } else {
        (add_spec(st.0, scale_spec(p1, delta)), p1, st.2)
    }
}

/// The Berlekamp-Massey state after the first `k` syndromes.
pub open spec fn bm_iter(s: Seq<u8>, k: nat) -> (Seq<u8>, Seq<u8>, nat)
    decreases k,
{
    if k == 0 {
        (poly_one(s.len() + 1), poly_one(s.len() + 1), 0)
    } else {
        bm_step(bm_iter(s, (k - 1) as nat), s, k - 1)
    }
}

pub open spec fn leading_zero_count(p: Seq<u8>) -> nat
    decreases p.len(),
{
    if p.len() == 0 {
        0
    } else if p[0] == 0 {
        1 + leading_zero_count(p.drop_first())
    } else {
        0
    }
}

/// The error locator that Berlekamp-Massey synthesises from the syndromes
/// `s`, with its leading zero coefficients removed.
pub open spec fn error_locator_spec(s: Seq<u8>) -> Seq<u8> {
    let lam = bm_iter(s, s.len()).0;
    lam.skip(leading_zero_count(lam) as int)
}

proof fn lemma_leading_zero_count(p: Seq<u8>, z: int)
    requires
        0 <= z <= p.len(),
        forall|k: int| 0 <= k < z ==> p[k] == 0,
        z == p.len() || p[z] != 0,
    ensures
        leading_zero_count(p) == z,
    decreases z,
{
    if z > 0 {
        lemma_leading_zero_count(p.drop_first(), z - 1);
    }
}

fn poly_scale(f: &mut Vec<u8>, c: u8)
    ensures
        final(f)@ == scale_spec(old(f)@, c),
{
    let ghost f0 = f@;
    let mut i: usize = 0;
    while i < f.len()
        invariant
            f@.len() == f0.len(),
            i <= f@.len(),
            forall|k: int| 0 <= k < f@.len() ==> f@[k] == (if k < i { gf_mul_of(f0[k], c) } else { f0[k] }),
        decreases f.len() - i,
    {
        let v = gf_mul(f[i], c);
        f.set(i, v);
        i += 1;
    }
    assert(f@ == scale_spec(f0, c));
}

fn poly_add(f: &mut Vec<u8>, g: &Vec<u8>)
    requires
        old(f).len() == g.len(),
    ensures
        final(f)@ == add_spec(old(f)@, g@),
{
    let ghost f0 = f@;
    let mut i: usize = 0;
    while i < f.len()
        invariant
            f@.len() == f0.len(),
            g@.len() == f0.len(),
            i <= f@.len(),
            forall|k: int| 0 <= k < f@.len() ==> f@[k] == (if k < i { gf_add(f0[k], g@[k]) } else { f0[k] }),
        decreases f.len() - i,
    {
        let v = f[i] ^ g[i];
        f.set(i, v);
        i += 1;
    }
    assert(f@ == add_spec(f0, g@));
}

fn rotate_left_one(p: &mut Vec<u8>)
    requires
        old(p).len() >= 1,
    ensures
        final(p)@ == rotate_spec(old(p)@),
{
    let ghost p0 = p@;
    let first = p[0];
    let n = p.len();
    let mut i: usize = 0;
    while i + 1 < n
        invariant
            n == p@.len(),
            n == p0.len(),
            n >= 1,
            i + 1 <= n,
            forall|k: int| 0 <= k < n ==> p@[k] == (if k < i { p0[k + 1] } else { p0[k] }),
        decreases n - i,
    {
        let v = p[i + 1];
        p.set(i, v);
        i += 1;
    }
    p.set(n - 1, first);
    assert(p@ == rotate_spec(p0));
}

fn find_error_locator(s: &[u8]) -> (r: Vec<u8>)
    requires
        s.len() <= ECC_SIZE,
    ensures
        r@ == error_locator_spec(s@),
        r@.len() <= s.len() + 1,
{
    let len = s.len() + 1;
    let mut lam: Vec<u8> = vec![0u8; len];
    lam.set(len - 1, 1);
    let mut prev: Vec<u8> = lam.clone();
    assert(lam@ == poly_one(len as nat));
    let mut v: usize = 0;
    let mut i: usize = 0;
    while i < s.len()
        invariant
            len == s.len() + 1,
            s.len() <= ECC_SIZE,
            i <= s.len(),
            v <= i,
            lam@.len() == len,
            prev@.len() == len,
            (lam@, prev@, v as nat) == bm_iter(s@, i as nat),
        decreases s.len() - i,
    {
        let mut delta: u8 = s[i];
        let mut j: usize = 1;
        while j <= v
            invariant
                1 <= j <= v + 1,
                v <= i < s.len(),
                lam@.len() == len,
                len == s.len() + 1,
                delta == discrepancy(lam@, s@, i as int, (j - 1) as nat),
            decreases v + 1 - j,
        {
            let t = gf_mul(lam[len - 1 - j], s[i - j]);
            delta = delta ^ t;
            j += 1;
        }
        let ghost lam0 = lam@;
        let ghost prev0 = prev@;
        rotate_left_one(&mut prev);
        if delta != 0 {
            if 2 * v <= i {
                let old_lam = lam;
                lam = prev;
                prev = old_lam;
                poly_scale(&mut lam, delta);
                let inv = gf_recip(delta);
                poly_scale(&mut prev, inv);
                v = i + 1 - v;
            }
            let mut delta_lam = prev.clone();
            assert(delta_lam@ == prev@);
            poly_scale(&mut delta_lam, delta);
            poly_add(&mut lam, &delta_lam);
        }
        assert((lam@, prev@, v as nat) == bm_step((lam0, prev0, bm_iter(s@, i as nat).2), s@, i as int));
        i += 1;
    }
    let mut z: usize = 0;
    while z < len && lam[z] == 0
        invariant
            z <= len,
            lam@.len() == len,
            forall|k: int| 0 <= k < z ==> lam@[k] == 0,
        decreases len - z,
    {
        z += 1;
    }
    proof {
        lemma_leading_zero_count(lam@, z as int);
    }
    let mut r: Vec<u8> = Vec::new();
    let mut k: usize = z;
    while k < len
        invariant
            z <= k <= len,
            lam@.len() == len,
            r@ == lam@.subrange(z as int, k as int),
        decreases len - k,
    {
        r.push(lam[k]);
        k += 1;
    }
    assert(r@ == lam@.skip(z as int));
    r
}


/// The positions among the first `k` of a word of length `n` whose locator
/// value's inverse is a root of `lam`, in increasing order.
pub open spec fn positions_spec(n: int, lam: Seq<u8>, k: nat) -> Seq<usize>
    decreases k,
{
    if k == 0 {
        Seq::empty()
    } else {
        let found = positions_spec(n, lam, (k - 1) as nat);
        if poly_eval_spec(lam, gf_recip_of(loc_value(n, k - 1))) == 0 {
            found.push((k - 1) as usize)
        } else {
            found
        }
    }
}

/// The error positions of a word of length `n` that the locator `lam` marks.
pub open spec fn error_positions_spec(n: int, lam: Seq<u8>) -> Seq<usize> {
    positions_spec(n, lam, n as nat)
}

proof fn lemma_positions_bounded(n: int, lam: Seq<u8>, k: nat)
    requires
        k <= n,
    ensures
        positions_in(positions_spec(n, lam, k), k as int),
        positions_spec(n, lam, k).len() <= k,
    decreases k,
{
    if k > 0 {
        lemma_positions_bounded(n, lam, (k - 1) as nat);
    }
}

fn find_error_locations(n: usize, lam: &[u8]) -> (r: Vec<usize>)
    requires
        n <= BLOCK_SIZE,
    ensures
        r@ == error_positions_spec(n as int, lam@),
        positions_in(r@, n as int),
        r@.len() <= n,
{
    let mut r: Vec<usize> = Vec::new();
    let mut j: usize = 0;
    while j < n
        invariant
            n <= BLOCK_SIZE,
            j <= n,
            r@ == positions_spec(n as int, lam@, j as nat),
        decreases n - j,
    {
        let x = locator_value(n, j);
        let xi = gf_recip(x);
        if poly_eval(lam, xi) == 0 {
            r.push(j);
        }
        j += 1;
    }
    proof {
        lemma_positions_bounded(n as int, lam@, n as nat);
    }
    r
}

/// The first `m` terms of coefficient `d` of `S(x) * Λ(x)`, where `s` holds
/// the syndromes lowest power first and `lam` is big-endian.
pub open spec fn omega_acc(s: Seq<u8>, lam: Seq<u8>, d: int, m: nat) -> u8
    decreases m,
{
    if m == 0 {
        0
    } else {
        gf_add(omega_acc(s, lam, d, (m - 1) as nat), gf_mul_of(s[d - (m - 1)], lam[lam.len() - m]))
    }
}

pub open spec fn min_nat(a: int, b: int) -> nat {
    if a < b { a as nat } else { b as nat }
}

/// The error evaluator `Ω(x) = S(x) * Λ(x) mod x^|S|`, big-endian.
pub open spec fn omega_spec(s: Seq<u8>, lam: Seq<u8>) -> Seq<u8> {
    Seq::new(
        s.len(),
        |i: int| omega_acc(s, lam, s.len() - 1 - i, min_nat(s.len() - i, lam.len() as int)),
    )
}

/// The formal derivative of the big-endian `lam`: over GF(2^8) the term of
/// degree `i` keeps its coefficient when `i` is odd and vanishes when even.
pub open spec fn derivative_spec(lam: Seq<u8>) -> Seq<u8> {
    Seq::new(
        (lam.len() - 1) as nat,
        |t: int| if (lam.len() - 1 - t) % 2 == 1 { lam[t] } else { 0u8 },
    )
}

/// Forney's magnitude `Y_j = X_j Ω(X_j^-1) / Λ'(X_j^-1)` at position `j`,
/// taken as zero where the denominator vanishes.
pub open spec fn magnitude_spec(n: int, s: Seq<u8>, lam: Seq<u8>, j: int) -> u8 {
    let x = loc_value(n, j);
    let xi = gf_recip_of(x);
    let den = poly_eval_spec(derivative_spec(lam), xi);
    if den == 0 {
        0
    } else {
        gf_div_of(gf_mul_of(x, poly_eval_spec(omega_spec(s, lam), xi)), den)
    }
}

pub open spec fn magnitudes_spec(n: int, s: Seq<u8>, lam: Seq<u8>, locs: Seq<usize>) -> Seq<u8> {
    Seq::new(locs.len(), |k: int| magnitude_spec(n, s, lam, locs[k] as int))
}

fn find_omega(s: &[u8], lam: &[u8]) -> (r: Vec<u8>)
    requires
        s.len() <= ECC_SIZE,
    ensures
        r@ == omega_spec(s@, lam@),
{
    let n = s.len();
    let mut r: Vec<u8> = Vec::new();
    let mut i: usize = 0;
    while i < n
        invariant
            n == s.len(),
            n <= ECC_SIZE,
            i <= n,
            r@.len() == i,
            forall|k: int| 0 <= k < i ==> r@[k] == omega_spec(s@, lam@)[k],
        decreases n - i,
    {
        let d = n - 1 - i;
        let m = if n - i < lam.len() { n - i } else { lam.len() };
        let mut acc: u8 = 0;
        let mut b: usize = 0;
        while b < m
            invariant
                b <= m,
                m <= lam.len(),
                m <= d + 1,
                d < n,
                n == s.len(),
                acc == omega_acc(s@, lam@, d as int, b as nat),
            decreases m - b,
        {
            let t = gf_mul(s[d - b], lam[lam.len() - 1 - b]);
            acc = acc ^ t;
            b += 1;
        }
        r.push(acc);
        i += 1;
    }
    assert(r@ == omega_spec(s@, lam@));
    r
}

fn find_derivative(lam: &[u8]) -> (r: Vec<u8>)
    requires
        lam.len() >= 1,
    ensures
        r@ == derivative_spec(lam@),
{
    let n = lam.len() - 1;
    let mut r: Vec<u8> = Vec::new();
    let mut t: usize = 0;
    while t < n
        invariant
            n == lam.len() - 1,
            t <= n,
            r@.len() == t,
            forall|k: int| 0 <= k < t ==> r@[k] == derivative_spec(lam@)[k],
        decreases n - t,
    {
        if (n - t) % 2 == 1 {
            r.push(lam[t]);
        } else {
            r.push(0);
        }
        t += 1;
    }
    assert(r@ == derivative_spec(lam@));
    r
}

fn find_error_magnitudes(n: usize, s: &[u8], lam: &[u8], locs: &[usize]) -> (r: Vec<u8>)
    requires
        n <= BLOCK_SIZE,
        s.len() <= ECC_SIZE,
        lam.len() >= 1,
        positions_in(locs@, n as int),
    ensures
        r@ == magnitudes_spec(n as int, s@, lam@, locs@),
{
    let omega = find_omega(s, lam);
    let deriv = find_derivative(lam);
    let mut r: Vec<u8> = Vec::new();
    let mut k: usize = 0;
    while k < locs.len()
        invariant
            n <= BLOCK_SIZE,
            positions_in(locs@, n as int),
            omega@ == omega_spec(s@, lam@),
            deriv@ == derivative_spec(lam@),
            k <= locs.len(),
            r@.len() == k,
            forall|t: int| 0 <= t < k ==> r@[t] == magnitudes_spec(n as int, s@, lam@, locs@)[t],
        decreases locs.len() - k,
    {
        let x = locator_value(n, locs[k]);
        let xi = gf_recip(x);
        let num = gf_mul(x, poly_eval(&omega, xi));
        let den = poly_eval(&deriv, xi);
        let y = match gf_checked_div(num, den) {
            Some(q) => q,
            None => 0,
        };
        r.push(y);
        k += 1;
    }
    assert(r@ == magnitudes_spec(n as int, s@, lam@, locs@));
    r
}

/// `cw` with the first `k` corrections applied: `mags[t]` added at
/// position `locs[t]`.
pub open spec fn apply_fold(cw: Seq<u8>, locs: Seq<usize>, mags: Seq<u8>, k: nat) -> Seq<u8>
    decreases k,
{
    if k == 0 {
        cw
    } else {
        let c = apply_fold(cw, locs, mags, (k - 1) as nat);
        let p = locs[k - 1] as int;
        c.update(p, gf_add(c[p], mags[k - 1]))
    }
}

pub open spec fn apply_spec(cw: Seq<u8>, locs: Seq<usize>, mags: Seq<u8>) -> Seq<u8> {
    apply_fold(cw, locs, mags, locs.len())
}

fn apply_corrections(cw: &mut [u8], locs: &[usize], mags: &[u8])
    requires
        positions_in(locs@, old(cw).len() as int),
        mags.len() == locs.len(),
    ensures
        final(cw)@ == apply_spec(old(cw)@, locs@, mags@),
{
    let ghost c0 = cw@;
    let mut k: usize = 0;
    while k < locs.len()
        invariant
            k <= locs.len(),
            mags.len() == locs.len(),
            cw@.len() == c0.len(),
            positions_in(locs@, c0.len() as int),
            cw@ == apply_fold(c0, locs@, mags@, k as nat),
        decreases locs.len() - k,
    {
        let p = locs[k];
        cw[p] = cw[p] ^ mags[k];
        k += 1;
    }
}


/// A locator whose error count `lam.len() - 1`, together with `erasures`
/// known erasures, is within the correction capacity (an empty locator,
/// left when every coefficient is zero, is not).
pub open spec fn within_capacity(lam: Seq<u8>, erasures: int) -> bool {
    lam.len() >= 1 && 2 * (lam.len() - 1) + erasures <= ECC_SIZE
}

/// The word that erasure correction of `cw` at the positions `e` produces.
pub open spec fn erasure_correction_spec(cw: Seq<u8>, e: Seq<usize>) -> Seq<u8> {
    let n = cw.len() as int;
    let s = syndromes_spec(cw);
    apply_spec(cw, e, magnitudes_spec(n, s, erasure_locator_spec(n, e), e))
}

/// The error locator that error correction of `cw` synthesises.
pub open spec fn errors_locator_spec(cw: Seq<u8>) -> Seq<u8> {
    error_locator_spec(syndromes_spec(cw))
}

/// The positions that error correction of `cw` corrects.
pub open spec fn errors_positions_spec(cw: Seq<u8>) -> Seq<usize> {
    error_positions_spec(cw.len() as int, errors_locator_spec(cw))
}

/// The word that error correction of `cw` produces.
pub open spec fn error_correction_spec(cw: Seq<u8>) -> Seq<u8> {
    let n = cw.len() as int;
    let locs = errors_positions_spec(cw);
    apply_spec(cw, locs, magnitudes_spec(n, syndromes_spec(cw), errors_locator_spec(cw), locs))
}

/// The locator of the unknown errors that combined correction of `cw` with
/// the erasures `e` synthesises from the Forney syndromes.
pub open spec fn combined_locator_spec(cw: Seq<u8>, e: Seq<usize>) -> Seq<u8> {
    error_locator_spec(forney_syndromes_spec(syndromes_spec(cw), cw.len() as int, e))
}

/// The positions that combined correction corrects: the errors found, then
/// the erasures given.
pub open spec fn combined_positions_spec(cw: Seq<u8>, e: Seq<usize>) -> Seq<usize> {
    error_positions_spec(cw.len() as int, combined_locator_spec(cw, e)) + e
}

/// The word that combined correction of `cw` with the erasures `e`
/// produces: magnitudes from the full syndromes and the locator of all
/// positions.
pub open spec fn combined_correction_spec(cw: Seq<u8>, e: Seq<usize>) -> Seq<u8> {
    let n = cw.len() as int;
    let locs = combined_positions_spec(cw, e);
    apply_spec(cw, locs, magnitudes_spec(n, syndromes_spec(cw), erasure_locator_spec(n, locs), locs))
}

/// `Ok(count)` when `cw` is a codeword, else `TooManyErrors`.
pub open spec fn verified_result(cw: Seq<u8>, count: int) -> Result<usize, Error> {
    if is_codeword(cw) {
        Ok(count as usize)
    } else {
        Err(Error::TooManyErrors)
    }
}

/// Corrects `codeword` in place, given the positions of up to `ECC_SIZE`
/// erased bytes, and returns how many positions were corrected.
pub fn correct_erasures(codeword: &mut [u8], erasures: &[usize]) -> (r: Result<usize, Error>)
    requires
        old(codeword).len() <= BLOCK_SIZE,
        erasures.len() <= ECC_SIZE ==> positions_in(erasures@, old(codeword).len() as int),
    ensures
        erasures.len() > ECC_SIZE ==> r == Err::<usize, Error>(Error::TooManyErrors) && final(codeword)@ == old(codeword)@,
        erasures.len() <= ECC_SIZE && is_codeword(old(codeword)@) ==> r == Ok::<usize, Error>(0) && final(codeword)@ == old(codeword)@,
        erasures.len() <= ECC_SIZE && !is_codeword(old(codeword)@) ==> final(codeword)@ == erasure_correction_spec(old(codeword)@, erasures@)
            && r == verified_result(final(codeword)@, erasures.len() as int),
        r is Ok ==> is_codeword(final(codeword)@),
{
    if erasures.len() > ECC_SIZE {
        return Err(Error::TooManyErrors);
    }
    let n = codeword.len();
    let s = find_syndromes(codeword);
    if all_zeros(&s) {
        return Ok(0);
    }
    let lam = find_erasure_locator(n, erasures);
    let mags = find_error_magnitudes(n, &s, &lam, erasures);
    apply_corrections(codeword, erasures, &mags);
    let s2 = find_syndromes(codeword);
    if !all_zeros(&s2) {
        return Err(Error::TooManyErrors);
    }
    Ok(erasures.len())
}

/// Corrects up to `ECC_SIZE / 2` errors at unknown positions of `codeword`
/// in place, and returns how many positions were corrected.
pub fn correct_errors(codeword: &mut [u8]) -> (r: Result<usize, Error>)
    requires
        old(codeword).len() <= BLOCK_SIZE,
    ensures
        is_codeword(old(codeword)@) ==> r == Ok::<usize, Error>(0) && final(codeword)@ == old(codeword)@,
        !is_codeword(old(codeword)@) && !within_capacity(errors_locator_spec(old(codeword)@), 0) ==>
            r == Err::<usize, Error>(Error::TooManyErrors) && final(codeword)@ == old(codeword)@,
        !is_codeword(old(codeword)@) && within_capacity(errors_locator_spec(old(codeword)@), 0) ==>
            final(codeword)@ == error_correction_spec(old(codeword)@)
            && r == verified_result(final(codeword)@, errors_positions_spec(old(codeword)@).len() as int),
        r is Ok ==> is_codeword(final(codeword)@),
{
    let n = codeword.len();
    let s = find_syndromes(codeword);
    if all_zeros(&s) {
        return Ok(0);
    }
    let lam = find_error_locator(&s);
    // a locator with no non-zero coefficient locates nothing: rejected like
    // one of too high a degree
    if lam.len() == 0 || 2 * (lam.len() - 1) > ECC_SIZE {
        return Err(Error::TooManyErrors);
    }
    let locs = find_error_locations(n, &lam);
    let mags = find_error_magnitudes(n, &s, &lam, &locs);
    apply_corrections(codeword, &locs, &mags);
    let s2 = find_syndromes(codeword);
    if !all_zeros(&s2) {
        return Err(Error::TooManyErrors);
    }
    Ok(locs.len())
}

/// Corrects `codeword` in place given known erasure positions, locating
/// further errors at unknown positions as long as twice their number plus
/// the number of erasures is at most `ECC_SIZE`; returns how many positions
/// were corrected.
pub fn correct(codeword: &mut [u8], erasures: &[usize]) -> (r: Result<usize, Error>)
    requires
        old(codeword).len() <= BLOCK_SIZE,
        erasures.len() <= ECC_SIZE ==> positions_in(erasures@, old(codeword).len() as int),
    ensures
        erasures.len() > ECC_SIZE ==> r == Err::<usize, Error>(Error::TooManyErrors) && final(codeword)@ == old(codeword)@,
        erasures.len() <= ECC_SIZE && is_codeword(old(codeword)@) ==> r == Ok::<usize, Error>(0) && final(codeword)@ == old(codeword)@,
        erasures.len() <= ECC_SIZE && !is_codeword(old(codeword)@)
            && !within_capacity(combined_locator_spec(old(codeword)@, erasures@), erasures.len() as int) ==>
            r == Err::<usize, Error>(Error::TooManyErrors) && final(codeword)@ == old(codeword)@,
        erasures.len() <= ECC_SIZE && !is_codeword(old(codeword)@)
            && within_capacity(combined_locator_spec(old(codeword)@, erasures@), erasures.len() as int) ==>
            final(codeword)@ == combined_correction_spec(old(codeword)@, erasures@)
            && r == verified_result(final(codeword)@, combined_positions_spec(old(codeword)@, erasures@).len() as int),
        r is Ok ==> is_codeword(final(codeword)@),
{
    if erasures.len() > ECC_SIZE {
        return Err(Error::TooManyErrors);
    }
    let n = codeword.len();
    let s = find_syndromes(codeword);
    if all_zeros(&s) {
        return Ok(0);
    }
    let forney = find_forney_syndromes(n, &s, erasures);
    let lam = find_error_locator(&forney);
    // as in `correct_errors`, an all-zero locator is rejected
    if lam.len() == 0 || 2 * (lam.len() - 1) + erasures.len() > ECC_SIZE {
        return Err(Error::TooManyErrors);
    }
    let mut locs = find_error_locations(n, &lam);
    let mut i: usize = 0;
    while i < erasures.len()
        invariant
            i <= erasures.len(),
            erasures.len() <= ECC_SIZE,
            positions_in(erasures@, n as int),
            locs@ == error_positions_spec(n as int, lam@) + erasures@.take(i as int),
            locs@.len() <= n + i,
            n <= BLOCK_SIZE,
        decreases erasures.len() - i,
    {
        locs.push(erasures[i]);
        i += 1;
        assert(locs@ == error_positions_spec(n as int, lam@) + erasures@.take(i as int));
    }
    assert(erasures@.take(erasures.len() as int) == erasures@);
    assert(positions_in(locs@, n as int));
    let lam2 = find_erasure_locator(n, &locs);
    let mags = find_error_magnitudes(n, &s, &lam2, &locs);
    apply_corrections(codeword, &locs, &mags);
    let s2 = find_syndromes(codeword);
    if !all_zeros(&s2) {
        return Err(Error::TooManyErrors);
    }
    Ok(locs.len())
}

} // verus!
