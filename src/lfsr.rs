//! A 64-bit Galois linear-feedback shift register over the polynomial
//! `x^64 + x^4 + x^3 + x + 1`, which can be stepped forwards and backwards.
use vstd::prelude::*;

verus! {

/// The feedback polynomial, with its `x^64` term.
pub const LFSR_POLYNOMIAL: u128 = 0x1000000000000001b;

#[derive(Debug, Clone, PartialEq, Eq, Structural)]
pub struct Lfsr(pub u64);

/// The state after one step forwards.
pub open spec fn step_forward(s: u64) -> u64 {
    let msb = s >> 63;
    ((s << 1) as u64) ^ (if msb != 0 { LFSR_POLYNOMIAL as u64 } else { 0u64 })
}

/// The state after one step backwards.
pub open spec fn step_backward(s: u64) -> u64 {
    let lsb = s & 1;
    (s >> 1) ^ (if lsb != 0 { (LFSR_POLYNOMIAL >> 1) as u64 } else { 0u64 })
}

/// State and output after `k` steps forwards from state `s` and output `x`:
/// each step shifts the outgoing top bit into the output.
pub open spec fn next_loop(s: u64, x: u64, k: nat) -> (u64, u64)
    decreases k,
{
    if k == 0 {
        (s, x)
    } else {
        let (s1, x1) = next_loop(s, x, (k - 1) as nat);
        (step_forward(s1), ((x1 << 1) as u64) | (s1 >> 63))
    }
}

/// State and output after `k` of `bits` steps backwards: each step shifts
/// the outgoing low bit into bit `bits - 1` of the output.
pub open spec fn prev_loop(s: u64, x: u64, bits: u64, k: nat) -> (u64, u64)
    decreases k,
{
    if k == 0 {
        (s, x)
    } else {
        let (s1, x1) = prev_loop(s, x, bits, (k - 1) as nat);
        (step_backward(s1), (x1 >> 1) | (((s1 & 1) << ((bits - 1) as u64)) as u64))
    }
}

pub open spec fn forward_n(s: u64, k: nat) -> u64
    decreases k,
{
    if k == 0 {
        s
    } else {
        step_forward(forward_n(s, (k - 1) as nat))
    }
}

pub open spec fn backward_n(s: u64, k: nat) -> u64
    decreases k,
{
    if k == 0 {
        s
    } else {
        step_backward(backward_n(s, (k - 1) as nat))
    }
}

/// One step backwards undoes one step forwards.
pub proof fn lemma_step_backward_undoes_forward(s: u64)
    ensures
        step_backward(step_forward(s)) == s,
{
    assert((LFSR_POLYNOMIAL as u64) == 0x1bu64) by (bit_vector);
    assert(((LFSR_POLYNOMIAL >> 1u128) as u64) == 0x800000000000000du64) by (bit_vector);
    let f = ((s << 1u64) as u64) ^ (if s >> 63u64 != 0 { 0x1bu64 } else { 0u64 });
    assert(f == step_forward(s));
    assert(((f >> 1u64) ^ (if f & 1u64 != 0 { 0x800000000000000du64 } else { 0u64 })) == s) by (bit_vector)
        requires
            f == ((s << 1u64) as u64) ^ (if s >> 63u64 != 0 { 0x1bu64 } else { 0u64 }),
    ;
}

proof fn lemma_backward_n_first(x: u64, n: nat)
    requires
        n >= 1,
    ensures
        backward_n(x, n) == backward_n(step_backward(x), (n - 1) as nat),
    decreases n,
{
    if n > 1 {
        lemma_backward_n_first(x, (n - 1) as nat);
        assert(backward_n(step_backward(x), (n - 1) as nat) == step_backward(
            backward_n(step_backward(x), (n - 2) as nat),
        ));
    } else {
        assert(backward_n(x, 0) == x);
        assert(backward_n(step_backward(x), 0) == step_backward(x));
    }
}

/// Skipping `n` steps backwards undoes skipping `n` steps forwards.
pub proof fn lemma_skip_backwards_undoes_skip(s: u64, n: nat)
    ensures
        backward_n(forward_n(s, n), n) == s,
    decreases n,
{
    if n > 0 {
        let prev = forward_n(s, (n - 1) as nat);
        lemma_backward_n_first(forward_n(s, n), n);
        lemma_step_backward_undoes_forward(prev);
        lemma_skip_backwards_undoes_skip(s, (n - 1) as nat);
    }
}

impl Lfsr {
    /// A register seeded with `seed`; the all-zero state, from which the
    /// register never leaves, is replaced by 1.
    pub fn new(seed: u64) -> (r: Lfsr)
        ensures
            r.0 == (if seed == 0 { 1 } else { seed }),
    {
        let mut seed = seed;
        if seed == 0 {
            seed = 1;
        }
        Lfsr(seed)
    }

    /// Steps forwards `bits` times and returns the bits shifted out, first
    /// bit most significant.
    pub fn next(&mut self, bits: u64) -> (r: u64)
        requires
            bits <= 64,
        ensures
            (final(self).0, r) == next_loop(old(self).0, 0, bits as nat),
    {
        let ghost s0 = self.0;
        let mut x: u64 = 0;
        let mut i: u64 = 0;
        while i < bits
            invariant
                i <= bits,
                (self.0, x) == next_loop(s0, 0, i as nat),
            decreases bits - i,
        {
            let msb = self.0 >> 63;
            x = (x << 1) | msb;
            self.0 = (self.0 << 1) ^ if msb != 0 { LFSR_POLYNOMIAL as u64 } else { 0 };
            i += 1;
        }
        x
    }

    /// Steps backwards `bits` times, undoing `next`, and returns the bits
    /// shifted out, first bit least significant.
    pub fn prev(&mut self, bits: u64) -> (r: u64)
        requires
            bits <= 64,
        ensures
            (final(self).0, r) == prev_loop(old(self).0, 0, bits, bits as nat),
    {
        let ghost s0 = self.0;
        let mut x: u64 = 0;
        let mut i: u64 = 0;
        while i < bits
            invariant
                i <= bits,
                bits <= 64,
                (self.0, x) == prev_loop(s0, 0, bits, i as nat),
            decreases bits - i,
        {
            let lsb = self.0 & 1;
            x = (x >> 1) | (lsb << (bits - 1));
            self.0 = (self.0 >> 1) ^ if lsb != 0 { (LFSR_POLYNOMIAL >> 1) as u64 } else { 0 };
            i += 1;
        }
        x
    }

    /// Steps forwards `bits` times, discarding the output.
    pub fn skip(&mut self, bits: u64)
        ensures
            final(self).0 == forward_n(old(self).0, bits as nat),
    {
        let ghost s0 = self.0;
        let mut i: u64 = 0;
        while i < bits
            invariant
                i <= bits,
                self.0 == forward_n(s0, i as nat),
            decreases bits - i,
        {
            let msb = self.0 >> 63;
            self.0 = (self.0 << 1) ^ if msb != 0 { LFSR_POLYNOMIAL as u64 } else { 0 };
            i += 1;
        }
    }

    /// Steps backwards `bits` times, discarding the output.
    pub fn skip_backwards(&mut self, bits: u64)
        ensures
            final(self).0 == backward_n(old(self).0, bits as nat),
    {
        let ghost s0 = self.0;
        let mut i: u64 = 0;
        while i < bits
            invariant
                i <= bits,
                self.0 == backward_n(s0, i as nat),
            decreases bits - i,
        {
            let lsb = self.0 & 1;
            self.0 = (self.0 >> 1) ^ if lsb != 0 { (LFSR_POLYNOMIAL >> 1) as u64 } else { 0 };
            i += 1;
        }
    }
}

} // verus!
