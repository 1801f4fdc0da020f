//! The SHA-1 message digest.
use vstd::prelude::*;
use vstd::wrapping::u32_specs::wrapping_add;

verus! {

#[derive(Clone, Copy, PartialEq, Eq, Structural, Debug, Default)]
pub struct Sha1;

/// The five chaining words of SHA-1.
pub type Sha1State = (u32, u32, u32, u32, u32);

pub open spec fn sha1_initial() -> Sha1State {
    (0x67452301, 0xEFCDAB89, 0x98BADCFE, 0x10325476, 0xC3D2E1F0)
}

/// `x` rotated left by `n` bits, for `1 <= n <= 31`.
pub open spec fn rotl32(x: u32, n: u32) -> u32 {
    ((x << n) | (x >> ((32 - n) as u32))) as u32
}

pub fn rotate_left_u32(x: u32, n: u32) -> (r: u32)
    requires
        1 <= n <= 31,
    ensures
        r == rotl32(x, n),
{
    (x << n) | (x >> (32 - n))
}

/// The big-endian word at byte offset `i` of `c`.
pub open spec fn be_word(c: Seq<u8>, i: int) -> u32 {
    (((c[i] as u32) << 24u32) | ((c[i + 1] as u32) << 16u32) | ((c[i + 2] as u32) << 8u32) | (c[i + 3] as u32)) as u32
}

/// The number of zero bytes that padding puts after the 0x80 marker of a
/// message of `len` bytes, so that 8 length bytes complete a 64-byte block.
pub open spec fn pad_zeros(len: int) -> int {
    (55 + 64 - len % 64) % 64
}

/// The bytes of `v`, most significant first.
pub open spec fn be_u64_bytes(v: u64) -> Seq<u8> {
    Seq::new(8, |i: int| (v >> ((56 - 8 * i) as u64)) as u8)
}

/// The padded message: the input, the byte 0x80, zeros, and the bit length
/// of the input as a big-endian 64-bit number.
pub open spec fn sha1_pad_spec(m: Seq<u8>) -> Seq<u8> {
    m + seq![0x80u8] + Seq::new(pad_zeros(m.len() as int) as nat, |i: int| 0u8) + be_u64_bytes((m.len() * 8) as u64)
}

/// The first `n` words of the message schedule of the block at byte
/// offset `base` of `msg`.
pub open spec fn schedule_seq(msg: Seq<u8>, base: int, n: nat) -> Seq<u32>
    decreases n,
{
    if n == 0 {
        Seq::empty()
    } else {
        let s = schedule_seq(msg, base, (n - 1) as nat);
        let i = n - 1;
        s.push(
            if i < 16 {
                be_word(msg, base + 4 * i)
            } else {
                rotl32(s[i - 3] ^ s[i - 8] ^ s[i - 14] ^ s[i - 16], 1)
            },
        )
    }
}

proof fn lemma_schedule_len(msg: Seq<u8>, base: int, n: nat)
    ensures
        schedule_seq(msg, base, n).len() == n,
    decreases n,
{
    if n > 0 {
        lemma_schedule_len(msg, base, (n - 1) as nat);
    }
}

pub open spec fn sha1_f(i: int, b: u32, c: u32, d: u32) -> u32 {
    if i < 20 {
        (b & c) | (!b & d)
    } else if i < 40 {
        b ^ c ^ d
    } else if i < 60 {
        (b & c) | (b & d) | (c & d)
    } else {
        b ^ c ^ d
    }
}

pub open spec fn sha1_k(i: int) -> u32 {
    if i < 20 {
        0x5A827999
    } else if i < 40 {
        0x6ED9EBA1
    } else if i < 60 {
        0x8F1BBCDC
    } else {
        0xCA62C1D6
    }
}

/// The working state after the first `n` rounds over the schedule `w`.
pub open spec fn sha1_rounds(st: Sha1State, w: Seq<u32>, n: nat) -> Sha1State
    decreases n,
{
    if n == 0 {
        st
    } else {
        let (a, b, c, d, e) = sha1_rounds(st, w, (n - 1) as nat);
        let i = n - 1;
        let temp = wrapping_add(
            wrapping_add(wrapping_add(wrapping_add(rotl32(a, 5), sha1_f(i, b, c, d)), e), sha1_k(i)),
            w[i],
        );
        (temp, a, rotl32(b, 30), c, d)
    }
}

/// The chaining state after one block with schedule `w`.
pub open spec fn sha1_compress(h: Sha1State, w: Seq<u32>) -> Sha1State {
    let r = sha1_rounds(h, w, 80);
    (
        wrapping_add(h.0, r.0),
        wrapping_add(h.1, r.1),
        wrapping_add(h.2, r.2),
        wrapping_add(h.3, r.3),
        wrapping_add(h.4, r.4),
    )
}

/// The chaining state after the first `n` blocks of `msg`.
pub open spec fn sha1_blocks(msg: Seq<u8>, n: nat) -> Sha1State
    decreases n,
{
    if n == 0 {
        sha1_initial()
    } else {
        sha1_compress(sha1_blocks(msg, (n - 1) as nat), schedule_seq(msg, 64 * (n - 1), 80))
    }
}

pub open spec fn state_word(h: Sha1State, k: int) -> u32 {
    if k == 0 {
        h.0
    } else if k == 1 {
        h.1
    } else if k == 2 {
        h.2
    } else if k == 3 {
        h.3
    } else {
        h.4
    }
}

/// The digest bytes of a chaining state: its words, big-endian.
pub open spec fn sha1_digest(h: Sha1State) -> Seq<u8> {
    Seq::new(20, |i: int| (state_word(h, i / 4) >> ((24 - 8 * (i % 4)) as u32)) as u8)
}

/// The SHA-1 digest of `m`.
pub open spec fn sha1_spec(m: Seq<u8>) -> Seq<u8> {
    let p = sha1_pad_spec(m);
    sha1_digest(sha1_blocks(p, (p.len() / 64) as nat))
}

/// Inputs short enough that their bit length fits in 64 bits.
pub open spec fn hashable_len(len: int) -> bool {
    len < 0x1000_0000_0000_0000
}

impl Sha1 {
    pub fn hash(key: &[u8]) -> (r: [u8; 20])
        requires
            hashable_len(key.len() as int),
        ensures
            r@ == sha1_spec(key@),
    {
        let msg = Self::pad_message(key);
        let ghost p = msg@;
        let total = msg.len();
        let n = total / 64;
        let mut h: Sha1State = (0x67452301, 0xEFCDAB89, 0x98BADCFE, 0x10325476, 0xC3D2E1F0);
        assert(n * 64 <= total) by (nonlinear_arith)
            requires n == total / 64, total >= 0;
        let mut c: usize = 0;
        let mut off: usize = 0;
        while c < n
            invariant
                n == msg@.len() / 64,
                n * 64 <= total,
                total == msg@.len(),
                off == c * 64,
                msg@ == p,
                c <= n,
                h == sha1_blocks(p, c as nat),
            decreases n - c,
        {
            let w = Self::build_schedule(&msg, off);
            let (mut a, mut b, mut cc, mut d, mut e) = h;
            let mut i: usize = 0;
            while i < 80
                invariant
                    i <= 80,
                    w@ == schedule_seq(p, 64 * c, 80),
                    w@.len() == 80,
                    (a, b, cc, d, e) == sha1_rounds(h, w@, i as nat),
                decreases 80 - i,
            {
                let f = if i < 20 {
                    (b & cc) | (!b & d)
                } else if i < 40 {
                    b ^ cc ^ d
                } else if i < 60 {
                    (b & cc) | (b & d) | (cc & d)
                } else {
                    b ^ cc ^ d
                };
                let k: u32 = if i < 20 {
                    0x5A827999
                } else if i < 40 {
                    0x6ED9EBA1
                } else if i < 60 {
                    0x8F1BBCDC
                } else {
                    0xCA62C1D6
                };
                let temp = rotate_left_u32(a, 5).wrapping_add(f).wrapping_add(e).wrapping_add(k).wrapping_add(w[i]);
                e = d;
                d = cc;
                cc = rotate_left_u32(b, 30);
                b = a;
                a = temp;
                i += 1;
            }
            h = (
                h.0.wrapping_add(a),
                h.1.wrapping_add(b),
                h.2.wrapping_add(cc),
                h.3.wrapping_add(d),
                h.4.wrapping_add(e),
            );
            assert(off + 64 <= n * 64);
            c += 1;
            off += 64;
        }
        let words: [u32; 5] = [h.0, h.1, h.2, h.3, h.4];
        let mut hash = [0u8; 20];
        let mut i: usize = 0;
        while i < 20
            invariant
                i <= 20,
                hash@.len() == 20,
                forall|k: int| 0 <= k < 5 ==> words@[k] == state_word(h, k),
                forall|k: int| 0 <= k < i ==> hash@[k] == sha1_digest(h)[k],
            decreases 20 - i,
        {
            let v = words[i / 4];
            let shift: u32 = 24 - 8 * ((i % 4) as u32);
            hash[i] = (v >> shift) as u8;
            i += 1;
        }
        assert(hash@ == sha1_digest(h));
        hash
    }

    fn pad_message(input: &[u8]) -> (r: Vec<u8>)
        requires
            hashable_len(input.len() as int),
        ensures
            r@ == sha1_pad_spec(input@),
            r@.len() % 64 == 0,
    {
        let len = input.len();
        let mut bytes: Vec<u8> = Vec::new();
        let mut i: usize = 0;
        while i < len
            invariant
                i <= len,
                len == input.len(),
                bytes@ == input@.take(i as int),
            decreases len - i,
        {
            bytes.push(input[i]);
            i += 1;
        }
        assert(bytes@ == input@);
        let bit_len = len as u64 * 8;
        bytes.push(0x80);
        let zeros = (55 + 64 - len % 64) % 64;
        let mut k: usize = 0;
        while k < zeros
            invariant
                k <= zeros,
                zeros == pad_zeros(len as int),
                len == input.len(),
                hashable_len(len as int),
                bytes@ == input@ + seq![0x80u8] + Seq::new(k as nat, |i: int| 0u8),
            decreases zeros - k,
        {
            bytes.push(0);
            k += 1;
            assert(bytes@ == input@ + seq![0x80u8] + Seq::new(k as nat, |i: int| 0u8));
        }
        let ghost prefix = bytes@;
        let mut b: usize = 0;
        while b < 8
            invariant
                b <= 8,
                bytes@ == prefix + be_u64_bytes(bit_len).take(b as int),
            decreases 8 - b,
        {
            bytes.push((bit_len >> (56 - 8 * b as u64)) as u8);
            b += 1;
            assert(bytes@ == prefix + be_u64_bytes(bit_len).take(b as int));
        }
        assert(be_u64_bytes(bit_len).take(8) == be_u64_bytes(bit_len));
        assert(bytes@.len() == len + 1 + zeros + 8);
        bytes
    }

    fn build_schedule(msg: &Vec<u8>, base: usize) -> (w: Vec<u32>)
        requires
            base + 64 <= msg.len(),
        ensures
            w@ == schedule_seq(msg@, base as int, 80),
            w@.len() == 80,
    {
        let mut w: Vec<u32> = Vec::new();
        let mut i: usize = 0;
        while i < 80
            invariant
                i <= 80,
                base + 64 <= msg.len(),
                w@ == schedule_seq(msg@, base as int, i as nat),
            decreases 80 - i,
        {
            proof {
                lemma_schedule_len(msg@, base as int, i as nat);
            }
            if i < 16 {
                let j = base + 4 * i;
                let v = ((msg[j] as u32) << 24) | ((msg[j + 1] as u32) << 16) | ((msg[j + 2] as u32) << 8) | (msg[j + 3] as u32);
                w.push(v);
            } else {
                let v = rotate_left_u32(w[i - 3] ^ w[i - 8] ^ w[i - 14] ^ w[i - 16], 1);
                w.push(v);
            }
            i += 1;
        }
        proof {
            lemma_schedule_len(msg@, base as int, 80);
        }
        w
    }
}

} // verus!
