//! CRC-32 (the reflected form used by Ethernet and zip) over the
//! polynomial `0x104C11DB7`, driven by a 256-entry table.
use vstd::prelude::*;

verus! {

/// The CRC-32 polynomial, with its `x^32` term.
pub const POLYNOMIAL: u64 = 0x104c11db7;

/// The remainder of the binary polynomial `a` divided by `b`, as computed
/// by `gf256::p64::naive_rem`.
pub uninterp spec fn p64_rem_of(a: u64, b: u64) -> u64;

/// Relies on `gf256::p64::naive_rem`: binary polynomial remainder, which
/// divides by zero (and panics) when `b` is zero.
#[verifier::external_body]
fn p64_naive_rem(a: u64, b: u64) -> (r: u64)
    requires
        b != 0,
    ensures
        r == p64_rem_of(a, b),
{
    gf256::p64(a).naive_rem(gf256::p64(b)).0
}

/// The low `n` bits of `x` in reverse order.
pub open spec fn reverse_loop(x: u32, n: nat) -> u32
    decreases n,
{
    if n == 0 {
        0
    } else {
        ((reverse_loop(x, (n - 1) as nat) << 1u32) | ((x >> ((n - 1) as u32)) & 1)) as u32
    }
}

/// `x` with its 32 bits in reverse order.
pub open spec fn reverse_bits_spec(x: u32) -> u32 {
    reverse_loop(x, 32)
}

fn reverse_bits(x: u32) -> (r: u32)
    ensures
        r == reverse_bits_spec(x),
{
    let mut r: u32 = 0;
    let mut i: u32 = 0;
    while i < 32
        invariant
            i <= 32,
            r == reverse_loop(x, i as nat),
        decreases 32 - i,
    {
        r = (r << 1) | ((x >> i) & 1);
        i += 1;
    }
    r
}

/// Entry `i` of the table: the reflected remainder of the reflected byte
/// `i`, shifted up by eight bits, modulo the polynomial.
pub open spec fn crc_table_spec(i: int) -> u32 {
    let x = reverse_bits_spec(i as u32);
    reverse_bits_spec(p64_rem_of(((x as u64) << 8u64) as u64, POLYNOMIAL) as u32)
}

/// The register after the first `n` bytes of `data`.
pub open spec fn crc_loop(data: Seq<u8>, n: nat) -> u32
    decreases n,
{
    if n == 0 {
        0xffffffff
    } else {
        let crc = crc_loop(data, (n - 1) as nat);
        (crc >> 8u32) ^ crc_table_spec(((crc as u8) ^ data[n - 1]) as int)
    }
}

/// The CRC-32 of `data`.
pub open spec fn crc32_spec(data: Seq<u8>) -> u32 {
    crc_loop(data, data.len()) ^ 0xffffffff
}

fn crc_table() -> (t: Vec<u32>)
    ensures
        t@.len() == 256,
        forall|i: int| 0 <= i < 256 ==> t@[i] == crc_table_spec(i),
{
    let mut t: Vec<u32> = Vec::new();
    let mut i: u32 = 0;
    while i < 256
        invariant
            i <= 256,
            t@.len() == i,
            forall|k: int| 0 <= k < i ==> t@[k] == crc_table_spec(k),
        decreases 256 - i,
    {
        let x = reverse_bits(i);
        let y = p64_naive_rem((x as u64) << 8, POLYNOMIAL) as u32;
        t.push(reverse_bits(y));
        i += 1;
    }
    t
}

pub fn crc32(data: &[u8]) -> (r: u32)
    ensures
        r == crc32_spec(data@),
{
    let table = crc_table();
    let mut crc: u32 = 0xffffffff;
    let mut i: usize = 0;
    while i < data.len()
        invariant
            i <= data.len(),
            table@.len() == 256,
            forall|k: int| 0 <= k < 256 ==> table@[k] == crc_table_spec(k),
            crc == crc_loop(data@, i as nat),
        decreases data.len() - i,
    {
        let idx = ((crc as u8) ^ data[i]) as usize;
        crc = (crc >> 8) ^ table[idx];
        i += 1;
    }
    crc ^ 0xffffffff
}

} // verus!
