//! The MD5 message digest.
use vstd::prelude::*;
use vstd::wrapping::u32_specs::wrapping_add;
use crate::sha1::{hashable_len, pad_zeros, rotate_left_u32, rotl32};

verus! {

pub struct MD5 {}

/// The per-round additive constants.
pub open spec fn md5_k() -> Seq<u32> {
    seq![
        0xd76aa478, 0xe8c7b756, 0x242070db, 0xc1bdceee, 0xf57c0faf, 0x4787c62a, 0xa8304613, 0xfd469501,
        0x698098d8, 0x8b44f7af, 0xffff5bb1, 0x895cd7be, 0x6b901122, 0xfd987193, 0xa679438e, 0x49b40821,
        0xf61e2562, 0xc040b340, 0x265e5a51, 0xe9b6c7aa, 0xd62f105d, 0x02441453, 0xd8a1e681, 0xe7d3fbc8,
        0x21e1cde6, 0xc33707d6, 0xf4d50d87, 0x455a14ed, 0xa9e3e905, 0xfcefa3f8, 0x676f02d9, 0x8d2a4c8a,
        0xfffa3942, 0x8771f681, 0x6d9d6122, 0xfde5380c, 0xa4beea44, 0x4bdecfa9, 0xf6bb4b60, 0xbebfbc70,
        0x289b7ec6, 0xeaa127fa, 0xd4ef3085, 0x04881d05, 0xd9d4d039, 0xe6db99e5, 0x1fa27cf8, 0xc4ac5665,
        0xf4292244, 0x432aff97, 0xab9423a7, 0xfc93a039, 0x655b59c3, 0x8f0ccc92, 0xffeff47d, 0x85845dd1,
        0x6fa87e4f, 0xfe2ce6e0, 0xa3014314, 0x4e0811a1, 0xf7537e82, 0xbd3af235, 0x2ad7d2bb, 0xeb86d391
    ]
}

/// The per-round rotation amounts: four distances repeated within each
/// group of sixteen rounds.
pub open spec fn md5_shift(i: int) -> u32 {
    let r = i % 4;
    if i < 16 {
        if r == 0 { 7 } else if r == 1 { 12 } else if r == 2 { 17 } else { 22 }
    } else if i < 32 {
        if r == 0 { 5 } else if r == 1 { 9 } else if r == 2 { 14 } else { 20 }
    } else if i < 48 {
        if r == 0 { 4 } else if r == 1 { 11 } else if r == 2 { 16 } else { 23 }
    } else {
        if r == 0 { 6 } else if r == 1 { 10 } else if r == 2 { 15 } else { 21 }
    }
}

/// The bytes of `v`, least significant first.
pub open spec fn le_u64_bytes(v: u64) -> Seq<u8> {
    Seq::new(8, |i: int| (v >> ((8 * i) as u64)) as u8)
}

/// The padded message: the input, the byte 0x80, zeros, and the bit length
/// of the input as a little-endian 64-bit number.
pub open spec fn md5_pad_spec(m: Seq<u8>) -> Seq<u8> {
    m + seq![0x80u8] + Seq::new(pad_zeros(m.len() as int) as nat, |i: int| 0u8) + le_u64_bytes((m.len() * 8) as u64)
}

/// The little-endian word at byte offset `i` of `c`.
pub open spec fn le_word(c: Seq<u8>, i: int) -> u32 {
    (((c[i + 3] as u32) << 24u32) | ((c[i + 2] as u32) << 16u32) | ((c[i + 1] as u32) << 8u32) | (c[i] as u32)) as u32
}

pub type Md5State = (u32, u32, u32, u32);

/// The auxiliary function and message word index of round `i`.
pub open spec fn md5_fg(i: int, b: u32, c: u32, d: u32) -> (u32, int) {
    if i < 16 {
        ((b & c) | (!b & d), i)
    } else if i < 32 {
        ((d & b) | (!d & c), (5 * i + 1) % 16)
    } else if i < 48 {
        (b ^ c ^ d, (3 * i + 5) % 16)
    } else {
        (c ^ (b | !d), (7 * i) % 16)
    }
}

/// The working state after the first `n` rounds over the block at byte
/// offset `base` of `msg`.
pub open spec fn md5_rounds(st: Md5State, msg: Seq<u8>, base: int, n: nat) -> Md5State
    decreases n,
{
    if n == 0 {
        st
    } else {
        let (a, b, c, d) = md5_rounds(st, msg, base, (n - 1) as nat);
        let i = n - 1;
        let (f0, g) = md5_fg(i, b, c, d);
        let f = wrapping_add(wrapping_add(wrapping_add(f0, a), md5_k()[i]), le_word(msg, base + 4 * g));
        (d, wrapping_add(b, rotl32(f, md5_shift(i))), b, c)
    }
}

/// The chaining state after the first `n` blocks of `msg`.
pub open spec fn md5_blocks(msg: Seq<u8>, n: nat) -> Md5State
    decreases n,
{
    if n == 0 {
        (0x67452301, 0xefcdab89, 0x98badcfe, 0x10325476)
    } else {
        let h = md5_blocks(msg, (n - 1) as nat);
        let r = md5_rounds(h, msg, 64 * (n - 1), 64);
        (wrapping_add(h.0, r.0), wrapping_add(h.1, r.1), wrapping_add(h.2, r.2), wrapping_add(h.3, r.3))
    }
}

pub open spec fn md5_word(h: Md5State, k: int) -> u32 {
    if k == 0 {
        h.0
    } else if k == 1 {
        h.1
    } else if k == 2 {
        h.2
    } else {
        h.3
    }
}

/// The digest bytes of a chaining state: its words, little-endian.
pub open spec fn md5_digest(h: Md5State) -> Seq<u8> {
    Seq::new(16, |i: int| (md5_word(h, i / 4) >> ((8 * (i % 4)) as u32)) as u8)
}

/// The MD5 digest of `m`.
pub open spec fn md5_spec(m: Seq<u8>) -> Seq<u8> {
    let p = md5_pad_spec(m);
    md5_digest(md5_blocks(p, (p.len() / 64) as nat))
}

impl MD5 {
    fn pad_message(message: &[u8]) -> (r: Vec<u8>)
        requires
            hashable_len(message.len() as int),
        ensures
            r@ == md5_pad_spec(message@),
            r@.len() % 64 == 0,
    {
        let len = message.len();
        let message_length = len as u64 * 8;
        let mut result: Vec<u8> = Vec::new();
        let mut i: usize = 0;
        while i < len
            invariant
                i <= len,
                len == message.len(),
                result@ == message@.take(i as int),
            decreases len - i,
        {
            result.push(message[i]);
            i += 1;
        }
        assert(result@ == message@);
        result.push(0x80);
        let zeros = (55 + 64 - len % 64) % 64;
        let mut k: usize = 0;
        while k < zeros
            invariant
                k <= zeros,
                zeros == pad_zeros(len as int),
                len == message.len(),
                hashable_len(len as int),
                result@ == message@ + seq![0x80u8] + Seq::new(k as nat, |i: int| 0u8),
            decreases zeros - k,
        {
            result.push(0);
            k += 1;
            assert(result@ == message@ + seq![0x80u8] + Seq::new(k as nat, |i: int| 0u8));
        }
        let ghost prefix = result@;
        let mut b: usize = 0;
        while b < 8
            invariant
                b <= 8,
                result@ == prefix + le_u64_bytes(message_length).take(b as int),
            decreases 8 - b,
        {
            result.push((message_length >> (b as u64 * 8)) as u8);
            b += 1;
            assert(result@ == prefix + le_u64_bytes(message_length).take(b as int));
        }
        assert(le_u64_bytes(message_length).take(8) == le_u64_bytes(message_length));
        assert(result@.len() == len + 1 + zeros + 8);
        result
    }

    pub fn hash(input: &[u8]) -> (r: [u8; 16])
        requires
            hashable_len(input.len() as int),
        ensures
            r@ == md5_spec(input@),
    {
        let k_table: [u32; 64] = [
        0xd76aa478, 0xe8c7b756, 0x242070db, 0xc1bdceee, 0xf57c0faf, 0x4787c62a, 0xa8304613, 0xfd469501,
        0x698098d8, 0x8b44f7af, 0xffff5bb1, 0x895cd7be, 0x6b901122, 0xfd987193, 0xa679438e, 0x49b40821,
        0xf61e2562, 0xc040b340, 0x265e5a51, 0xe9b6c7aa, 0xd62f105d, 0x02441453, 0xd8a1e681, 0xe7d3fbc8,
        0x21e1cde6, 0xc33707d6, 0xf4d50d87, 0x455a14ed, 0xa9e3e905, 0xfcefa3f8, 0x676f02d9, 0x8d2a4c8a,
        0xfffa3942, 0x8771f681, 0x6d9d6122, 0xfde5380c, 0xa4beea44, 0x4bdecfa9, 0xf6bb4b60, 0xbebfbc70,
        0x289b7ec6, 0xeaa127fa, 0xd4ef3085, 0x04881d05, 0xd9d4d039, 0xe6db99e5, 0x1fa27cf8, 0xc4ac5665,
        0xf4292244, 0x432aff97, 0xab9423a7, 0xfc93a039, 0x655b59c3, 0x8f0ccc92, 0xffeff47d, 0x85845dd1,
        0x6fa87e4f, 0xfe2ce6e0, 0xa3014314, 0x4e0811a1, 0xf7537e82, 0xbd3af235, 0x2ad7d2bb, 0xeb86d391
        ];
        assert(k_table@ == md5_k());
        let padded_msg = Self::pad_message(input);
        let ghost p = padded_msg@;
        let total = padded_msg.len();
        let n = total / 64;
        assert(n * 64 <= total) by (nonlinear_arith)
            requires n == total / 64, total >= 0;
        let mut h: Md5State = (0x67452301, 0xefcdab89, 0x98badcfe, 0x10325476);
        let mut c: usize = 0;
        let mut off: usize = 0;
        while c < n
            invariant
                n == total / 64,
                n * 64 <= total,
                total == padded_msg@.len(),
                off == c * 64,
                padded_msg@ == p,
                k_table@ == md5_k(),
                c <= n,
                h == md5_blocks(p, c as nat),
            decreases n - c,
        {
            let (mut a, mut b, mut cc, mut d) = h;
            let mut i: usize = 0;
            while i < 64
                invariant
                    i <= 64,
                    off + 64 <= total,
                    total == padded_msg@.len(),
                    padded_msg@ == p,
                    k_table@ == md5_k(),
                    (a, b, cc, d) == md5_rounds(h, p, off as int, i as nat),
                decreases 64 - i,
            {
                let (f0, g): (u32, usize) = if i < 16 {
                    ((b & cc) | (!b & d), i)
                } else if i < 32 {
                    ((d & b) | (!d & cc), (5 * i + 1) % 16)
                } else if i < 48 {
                    (b ^ cc ^ d, (3 * i + 5) % 16)
                } else {
                    (cc ^ (b | !d), (7 * i) % 16)
                };
                let j = off + 4 * g;
                let m = ((padded_msg[j + 3] as u32) << 24) | ((padded_msg[j + 2] as u32) << 16)
                    | ((padded_msg[j + 1] as u32) << 8) | (padded_msg[j] as u32);
                let r = i % 4;
                let s: u32 = if i < 16 {
                    if r == 0 { 7 } else if r == 1 { 12 } else if r == 2 { 17 } else { 22 }
                } else if i < 32 {
                    if r == 0 { 5 } else if r == 1 { 9 } else if r == 2 { 14 } else { 20 }
                } else if i < 48 {
                    if r == 0 { 4 } else if r == 1 { 11 } else if r == 2 { 16 } else { 23 }
                } else {
                    if r == 0 { 6 } else if r == 1 { 10 } else if r == 2 { 15 } else { 21 }
                };
                let f = f0.wrapping_add(a).wrapping_add(k_table[i]).wrapping_add(m);
                a = d;
                d = cc;
                cc = b;
                b = b.wrapping_add(rotate_left_u32(f, s));
                i += 1;
            }
            h = (h.0.wrapping_add(a), h.1.wrapping_add(b), h.2.wrapping_add(cc), h.3.wrapping_add(d));
            assert(off + 64 <= n * 64);
            c += 1;
            off += 64;
        }
        let words: [u32; 4] = [h.0, h.1, h.2, h.3];
        let mut result = [0u8; 16];
        let mut i: usize = 0;
        while i < 16
            invariant
                i <= 16,
                result@.len() == 16,
                forall|k: int| 0 <= k < 4 ==> words@[k] == md5_word(h, k),
                forall|k: int| 0 <= k < i ==> result@[k] == md5_digest(h)[k],
            decreases 16 - i,
        {
            let v = words[i / 4];
            let shift: u32 = 8 * ((i % 4) as u32);
            result[i] = (v >> shift) as u8;
            i += 1;
        }
        assert(result@ == md5_digest(h));
        result
    }
}

} // verus!
