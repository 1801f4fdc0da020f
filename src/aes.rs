//! The AES block cipher (128-, 192- and 256-bit keys) on single 16-byte
//! blocks.
use vstd::prelude::*;

verus! {

pub const AES_BLOCK_SIZE: usize = 16;

pub const AES_128_KEY_SIZE: usize = 16;

pub const AES_192_KEY_SIZE: usize = 24;

pub const AES_256_KEY_SIZE: usize = 32;

/// The cipher state: four rows of four bytes; the block fills it column by
/// column.
pub type AesBlock = [[u8; 4]; 4];

/// Why a block could not be processed.
#[derive(Debug, Clone, Copy, PartialEq, Eq, Structural)]
pub enum AesError {
    /// The key is not 16, 24 or 32 bytes long; the length is given.
    InvalidKeyLength(usize),
}

impl AesError {
    pub fn as_str(&self) -> (r: &'static str) {
        match self {
            AesError::InvalidKeyLength(_) => "Invalid key length. Expected 16, 24, or 32 bytes",
        }
    }
}

// ---------------------------------------------------------------------------
// Arithmetic in GF(2^8) with the AES modulus
// ---------------------------------------------------------------------------

/// Shift-and-add multiplication: `p` accumulates `a` for each set bit of
/// `b`, and `a` is doubled modulo the AES polynomial at each of `n` steps.
/// Returns (a, b, p).
pub open spec fn mgf_loop(a: u8, b: u8, p: u8, n: nat) -> (u8, u8, u8)
    decreases n,
{
    if n == 0 {
        (a, b, p)
    } else {
        let (a1, b1, p1) = mgf_loop(a, b, p, (n - 1) as nat);
        let p2 = if 0x01u8 & b1 != 0 { p1 ^ a1 } else { p1 };
        let a2 = (a1 << 1u8) as u8;
        let a3 = if 0x80u8 & a1 != 0 { a2 ^ 0x1bu8 } else { a2 };
        (a3, b1 >> 1u8, p2)
    }
}

pub open spec fn multiply_gf_spec(a: u8, b: u8) -> u8 {
    mgf_loop(a, b, 0, 8).2
}

fn multiply_gf(a: u8, b: u8) -> (r: u8)
    ensures
        r == multiply_gf_spec(a, b),
{
    let (mut a, mut b) = (a, b);
    let ghost (a0, b0) = (a, b);
    let mut p: u8 = 0x00;
    let mut k: u32 = 0;
    while k < 8
        invariant
            k <= 8,
            (a, b, p) == mgf_loop(a0, b0, 0, k as nat),
        decreases 8 - k,
    {
        if 0x01 & b != 0 {
            p ^= a;
        }
        b >>= 0x01;
        let carry = 0x80 & a;
        a <<= 1;
        if carry != 0 {
            a ^= 0x1b;
        }
        k += 1;
    }
    p
}

/// `b` rotated left by `shift` bits, for `1 <= shift <= 7`.
pub open spec fn lcs_spec(b: u8, shift: u8) -> u8 {
    ((b << shift) | (b >> ((8 - shift) as u8))) as u8
}

fn left_circular_shift(b: u8, shift: i32) -> (r: u8)
    requires
        1 <= shift <= 7,
    ensures
        r == lcs_spec(b, shift as u8),
{
    let s = shift as u8;
    (b << s) | (b >> (8 - s))
}

/// `x` multiplied into `r` a further `n` times.
pub open spec fn inverse_loop(x: u8, r: u8, n: nat) -> u8
    decreases n,
{
    if n == 0 {
        r
    } else {
        multiply_gf_spec(inverse_loop(x, r, (n - 1) as nat), x)
    }
}

/// The multiplicative inverse `x^254` (zero for zero).
pub open spec fn find_inverse_spec(x: u8) -> u8 {
    inverse_loop(x, x, 253)
}

fn find_inverse(arr: u8) -> (r: u8)
    ensures
        r == find_inverse_spec(arr),
{
    let mut result = arr;
    let mut k: u32 = 1;
    while k < 254
        invariant
            1 <= k <= 254,
            result == inverse_loop(arr, arr, (k - 1) as nat),
        decreases 254 - k,
    {
        result = multiply_gf(result, arr);
        k += 1;
    }
    result
}

/// The S-box: the inverse, mixed with its rotations by one to four bits,
/// plus 0x63.
pub open spec fn sub_byte_spec(c: u8) -> u8 {
    let s = find_inverse_spec(c);
    s ^ lcs_spec(s, 1) ^ lcs_spec(s, 2) ^ lcs_spec(s, 3) ^ lcs_spec(s, 4) ^ 0x63u8
}

fn affine_transform(c: u8) -> (r: u8)
    ensures
        r == sub_byte_spec(c),
{
    let mut x = find_inverse(c);
    let s = x;
    let mut i: i32 = 1;
    while i < 5
        invariant
            1 <= i <= 5,
            s == find_inverse_spec(c),
            x == (if i == 1 { s } else if i == 2 { s ^ lcs_spec(s, 1) } else if i == 3 {
                s ^ lcs_spec(s, 1) ^ lcs_spec(s, 2)
            } else if i == 4 {
                s ^ lcs_spec(s, 1) ^ lcs_spec(s, 2) ^ lcs_spec(s, 3)
            } else {
                s ^ lcs_spec(s, 1) ^ lcs_spec(s, 2) ^ lcs_spec(s, 3) ^ lcs_spec(s, 4)
            }),
        decreases 5 - i,
    {
        x ^= left_circular_shift(s, i);
        i += 1;
    }
    x ^= 0x63;
    x
}

fn sub_byte(a: u8) -> (r: u8)
    ensures
        r == sub_byte_spec(a),
{
    affine_transform(a)
}

/// The inverse S-box: the inverse affine map, then the field inverse.
pub open spec fn inv_sub_byte_spec(c: u8) -> u8 {
    find_inverse_spec(lcs_spec(c, 1) ^ lcs_spec(c, 3) ^ lcs_spec(c, 6) ^ 0x05u8)
}

fn inverse_affine_transform(c: u8) -> (r: u8)
    ensures
        r == inv_sub_byte_spec(c),
{
    let s = c;
    let mut x = left_circular_shift(s, 1);
    x ^= left_circular_shift(s, 3);
    x ^= left_circular_shift(s, 6);
    x ^= 0x05;
    find_inverse(x)
}

/// The round constants: doubling in the AES field from 1 at index 1 (0x8d
/// at index 0).
pub open spec fn rc_spec(i: u8) -> u8
    decreases i,
{
    if i == 0 {
        0x8D
    } else if i == 1 {
        0x01
    } else {
        let p = rc_spec((i - 1) as u8);
        if p < 0x80 {
            (p * 2) as u8
        } else {
            ((((p as u16) * 2) as u16) ^ 0x11Bu16) as u8
        }
    }
}

fn rc(i: u8) -> (r: u8)
    ensures
        r == rc_spec(i),
    decreases i,
{
    if i == 0x00 {
        return 0x8D;
    }
    if i == 0x01 {
        return 0x01;
    }
    let rc_p = rc(i.wrapping_sub(1));
    if rc_p < 0x80 {
        rc_p.wrapping_mul(2)
    } else {
        let c = rc_p as u16;
        ((c * 2) ^ 0x11B) as u8
    }
}

pub open spec fn log_table() -> Seq<u8> {
    seq![
        0x00, 0x00, 0x19, 0x01, 0x32, 0x02, 0x1a, 0xc6, 0x4b, 0xc7, 0x1b, 0x68, 0x33, 0xee, 0xdf, 0x03,
        0x64, 0x04, 0xe0, 0x0e, 0x34, 0x8d, 0x81, 0xef, 0x4c, 0x71, 0x08, 0xc8, 0xf8, 0x69, 0x1c, 0xc1,
        0x7d, 0xc2, 0x1d, 0xb5, 0xf9, 0xb9, 0x27, 0x6a, 0x4d, 0xe4, 0xa6, 0x72, 0x9a, 0xc9, 0x09, 0x78,
        0x65, 0x2f, 0x8a, 0x05, 0x21, 0x0f, 0xe1, 0x24, 0x12, 0xf0, 0x82, 0x45, 0x35, 0x93, 0xda, 0x8e,
        0x96, 0x8f, 0xdb, 0xbd, 0x36, 0xd0, 0xce, 0x94, 0x13, 0x5c, 0xd2, 0xf1, 0x40, 0x46, 0x83, 0x38,
        0x66, 0xdd, 0xfd, 0x30, 0xbf, 0x06, 0x8b, 0x62, 0xb3, 0x25, 0xe2, 0x98, 0x22, 0x88, 0x91, 0x10,
        0x7e, 0x6e, 0x48, 0xc3, 0xa3, 0xb6, 0x1e, 0x42, 0x3a, 0x6b, 0x28, 0x54, 0xfa, 0x85, 0x3d, 0xba,
        0x2b, 0x79, 0x0a, 0x15, 0x9b, 0x9f, 0x5e, 0xca, 0x4e, 0xd4, 0xac, 0xe5, 0xf3, 0x73, 0xa7, 0x57,
        0xaf, 0x58, 0xa8, 0x50, 0xf4, 0xea, 0xd6, 0x74, 0x4f, 0xae, 0xe9, 0xd5, 0xe7, 0xe6, 0xad, 0xe8,
        0x2c, 0xd7, 0x75, 0x7a, 0xeb, 0x16, 0x0b, 0xf5, 0x59, 0xcb, 0x5f, 0xb0, 0x9c, 0xa9, 0x51, 0xa0,
        0x7f, 0x0c, 0xf6, 0x6f, 0x17, 0xc4, 0x49, 0xec, 0xd8, 0x43, 0x1f, 0x2d, 0xa4, 0x76, 0x7b, 0xb7,
        0xcc, 0xbb, 0x3e, 0x5a, 0xfb, 0x60, 0xb1, 0x86, 0x3b, 0x52, 0xa1, 0x6c, 0xaa, 0x55, 0x29, 0x9d,
        0x97, 0xb2, 0x87, 0x90, 0x61, 0xbe, 0xdc, 0xfc, 0xbc, 0x95, 0xcf, 0xcd, 0x37, 0x3f, 0x5b, 0xd1,
        0x53, 0x39, 0x84, 0x3c, 0x41, 0xa2, 0x6d, 0x47, 0x14, 0x2a, 0x9e, 0x5d, 0x56, 0xf2, 0xd3, 0xab,
        0x44, 0x11, 0x92, 0xd9, 0x23, 0x20, 0x2e, 0x89, 0xb4, 0x7c, 0xb8, 0x26, 0x77, 0x99, 0xe3, 0xa5,
        0x67, 0x4a, 0xed, 0xde, 0xc5, 0x31, 0xfe, 0x18, 0x0d, 0x63, 0x8c, 0x80, 0xc0, 0xf7, 0x70, 0x07,
    ]
}

pub open spec fn alog_table() -> Seq<u8> {
    seq![
        0x01, 0x03, 0x05, 0x0f, 0x11, 0x33, 0x55, 0xff, 0x1a, 0x2e, 0x72, 0x96, 0xa1, 0xf8, 0x13, 0x35,
        0x5f, 0xe1, 0x38, 0x48, 0xd8, 0x73, 0x95, 0xa4, 0xf7, 0x02, 0x06, 0x0a, 0x1e, 0x22, 0x66, 0xaa,
        0xe5, 0x34, 0x5c, 0xe4, 0x37, 0x59, 0xeb, 0x26, 0x6a, 0xbe, 0xd9, 0x70, 0x90, 0xab, 0xe6, 0x31,
        0x53, 0xf5, 0x04, 0x0c, 0x14, 0x3c, 0x44, 0xcc, 0x4f, 0xd1, 0x68, 0xb8, 0xd3, 0x6e, 0xb2, 0xcd,
        0x4c, 0xd4, 0x67, 0xa9, 0xe0, 0x3b, 0x4d, 0xd7, 0x62, 0xa6, 0xf1, 0x08, 0x18, 0x28, 0x78, 0x88,
        0x83, 0x9e, 0xb9, 0xd0, 0x6b, 0xbd, 0xdc, 0x7f, 0x81, 0x98, 0xb3, 0xce, 0x49, 0xdb, 0x76, 0x9a,
        0xb5, 0xc4, 0x57, 0xf9, 0x10, 0x30, 0x50, 0xf0, 0x0b, 0x1d, 0x27, 0x69, 0xbb, 0xd6, 0x61, 0xa3,
        0xfe, 0x19, 0x2b, 0x7d, 0x87, 0x92, 0xad, 0xec, 0x2f, 0x71, 0x93, 0xae, 0xe9, 0x20, 0x60, 0xa0,
        0xfb, 0x16, 0x3a, 0x4e, 0xd2, 0x6d, 0xb7, 0xc2, 0x5d, 0xe7, 0x32, 0x56, 0xfa, 0x15, 0x3f, 0x41,
        0xc3, 0x5e, 0xe2, 0x3d, 0x47, 0xc9, 0x40, 0xc0, 0x5b, 0xed, 0x2c, 0x74, 0x9c, 0xbf, 0xda, 0x75,
        0x9f, 0xba, 0xd5, 0x64, 0xac, 0xef, 0x2a, 0x7e, 0x82, 0x9d, 0xbc, 0xdf, 0x7a, 0x8e, 0x89, 0x80,
        0x9b, 0xb6, 0xc1, 0x58, 0xe8, 0x23, 0x65, 0xaf, 0xea, 0x25, 0x6f, 0xb1, 0xc8, 0x43, 0xc5, 0x54,
        0xfc, 0x1f, 0x21, 0x63, 0xa5, 0xf4, 0x07, 0x09, 0x1b, 0x2d, 0x77, 0x99, 0xb0, 0xcb, 0x46, 0xca,
        0x45, 0xcf, 0x4a, 0xde, 0x79, 0x8b, 0x86, 0x91, 0xa8, 0xe3, 0x3e, 0x42, 0xc6, 0x51, 0xf3, 0x0e,
        0x12, 0x36, 0x5a, 0xee, 0x29, 0x7b, 0x8d, 0x8c, 0x8f, 0x8a, 0x85, 0x94, 0xa7, 0xf2, 0x0d, 0x17,
        0x39, 0x4b, 0xdd, 0x7c, 0x84, 0x97, 0xa2, 0xfd, 0x1c, 0x24, 0x6c, 0xb4, 0xc7, 0x52, 0xf6, 0x01,
    ]
}

/// Multiplication through the logarithm tables of the generator 3.
pub open spec fn mul_spec(a: u8, b: u8) -> u8 {
    if a != 0 && b != 0 {
        alog_table()[(log_table()[a as int] + log_table()[b as int]) % 255]
    } else {
        0
    }
}

fn mul(a: u8, b: u8) -> (r: u8)
    ensures
        r == mul_spec(a, b),
{
    if a != 0 && b != 0 {
        let log: [u8; 256] = [
            0x00, 0x00, 0x19, 0x01, 0x32, 0x02, 0x1a, 0xc6, 0x4b, 0xc7, 0x1b, 0x68, 0x33, 0xee, 0xdf, 0x03,
        0x64, 0x04, 0xe0, 0x0e, 0x34, 0x8d, 0x81, 0xef, 0x4c, 0x71, 0x08, 0xc8, 0xf8, 0x69, 0x1c, 0xc1,
        0x7d, 0xc2, 0x1d, 0xb5, 0xf9, 0xb9, 0x27, 0x6a, 0x4d, 0xe4, 0xa6, 0x72, 0x9a, 0xc9, 0x09, 0x78,
        0x65, 0x2f, 0x8a, 0x05, 0x21, 0x0f, 0xe1, 0x24, 0x12, 0xf0, 0x82, 0x45, 0x35, 0x93, 0xda, 0x8e,
        0x96, 0x8f, 0xdb, 0xbd, 0x36, 0xd0, 0xce, 0x94, 0x13, 0x5c, 0xd2, 0xf1, 0x40, 0x46, 0x83, 0x38,
        0x66, 0xdd, 0xfd, 0x30, 0xbf, 0x06, 0x8b, 0x62, 0xb3, 0x25, 0xe2, 0x98, 0x22, 0x88, 0x91, 0x10,
        0x7e, 0x6e, 0x48, 0xc3, 0xa3, 0xb6, 0x1e, 0x42, 0x3a, 0x6b, 0x28, 0x54, 0xfa, 0x85, 0x3d, 0xba,
        0x2b, 0x79, 0x0a, 0x15, 0x9b, 0x9f, 0x5e, 0xca, 0x4e, 0xd4, 0xac, 0xe5, 0xf3, 0x73, 0xa7, 0x57,
        0xaf, 0x58, 0xa8, 0x50, 0xf4, 0xea, 0xd6, 0x74, 0x4f, 0xae, 0xe9, 0xd5, 0xe7, 0xe6, 0xad, 0xe8,
        0x2c, 0xd7, 0x75, 0x7a, 0xeb, 0x16, 0x0b, 0xf5, 0x59, 0xcb, 0x5f, 0xb0, 0x9c, 0xa9, 0x51, 0xa0,
        0x7f, 0x0c, 0xf6, 0x6f, 0x17, 0xc4, 0x49, 0xec, 0xd8, 0x43, 0x1f, 0x2d, 0xa4, 0x76, 0x7b, 0xb7,
        0xcc, 0xbb, 0x3e, 0x5a, 0xfb, 0x60, 0xb1, 0x86, 0x3b, 0x52, 0xa1, 0x6c, 0xaa, 0x55, 0x29, 0x9d,
        0x97, 0xb2, 0x87, 0x90, 0x61, 0xbe, 0xdc, 0xfc, 0xbc, 0x95, 0xcf, 0xcd, 0x37, 0x3f, 0x5b, 0xd1,
        0x53, 0x39, 0x84, 0x3c, 0x41, 0xa2, 0x6d, 0x47, 0x14, 0x2a, 0x9e, 0x5d, 0x56, 0xf2, 0xd3, 0xab,
        0x44, 0x11, 0x92, 0xd9, 0x23, 0x20, 0x2e, 0x89, 0xb4, 0x7c, 0xb8, 0x26, 0x77, 0x99, 0xe3, 0xa5,
        0x67, 0x4a, 0xed, 0xde, 0xc5, 0x31, 0xfe, 0x18, 0x0d, 0x63, 0x8c, 0x80, 0xc0, 0xf7, 0x70, 0x07,
        ];
        let alog: [u8; 256] = [
            0x01, 0x03, 0x05, 0x0f, 0x11, 0x33, 0x55, 0xff, 0x1a, 0x2e, 0x72, 0x96, 0xa1, 0xf8, 0x13, 0x35,
        0x5f, 0xe1, 0x38, 0x48, 0xd8, 0x73, 0x95, 0xa4, 0xf7, 0x02, 0x06, 0x0a, 0x1e, 0x22, 0x66, 0xaa,
        0xe5, 0x34, 0x5c, 0xe4, 0x37, 0x59, 0xeb, 0x26, 0x6a, 0xbe, 0xd9, 0x70, 0x90, 0xab, 0xe6, 0x31,
        0x53, 0xf5, 0x04, 0x0c, 0x14, 0x3c, 0x44, 0xcc, 0x4f, 0xd1, 0x68, 0xb8, 0xd3, 0x6e, 0xb2, 0xcd,
        0x4c, 0xd4, 0x67, 0xa9, 0xe0, 0x3b, 0x4d, 0xd7, 0x62, 0xa6, 0xf1, 0x08, 0x18, 0x28, 0x78, 0x88,
        0x83, 0x9e, 0xb9, 0xd0, 0x6b, 0xbd, 0xdc, 0x7f, 0x81, 0x98, 0xb3, 0xce, 0x49, 0xdb, 0x76, 0x9a,
        0xb5, 0xc4, 0x57, 0xf9, 0x10, 0x30, 0x50, 0xf0, 0x0b, 0x1d, 0x27, 0x69, 0xbb, 0xd6, 0x61, 0xa3,
        0xfe, 0x19, 0x2b, 0x7d, 0x87, 0x92, 0xad, 0xec, 0x2f, 0x71, 0x93, 0xae, 0xe9, 0x20, 0x60, 0xa0,
        0xfb, 0x16, 0x3a, 0x4e, 0xd2, 0x6d, 0xb7, 0xc2, 0x5d, 0xe7, 0x32, 0x56, 0xfa, 0x15, 0x3f, 0x41,
        0xc3, 0x5e, 0xe2, 0x3d, 0x47, 0xc9, 0x40, 0xc0, 0x5b, 0xed, 0x2c, 0x74, 0x9c, 0xbf, 0xda, 0x75,
        0x9f, 0xba, 0xd5, 0x64, 0xac, 0xef, 0x2a, 0x7e, 0x82, 0x9d, 0xbc, 0xdf, 0x7a, 0x8e, 0x89, 0x80,
        0x9b, 0xb6, 0xc1, 0x58, 0xe8, 0x23, 0x65, 0xaf, 0xea, 0x25, 0x6f, 0xb1, 0xc8, 0x43, 0xc5, 0x54,
        0xfc, 0x1f, 0x21, 0x63, 0xa5, 0xf4, 0x07, 0x09, 0x1b, 0x2d, 0x77, 0x99, 0xb0, 0xcb, 0x46, 0xca,
        0x45, 0xcf, 0x4a, 0xde, 0x79, 0x8b, 0x86, 0x91, 0xa8, 0xe3, 0x3e, 0x42, 0xc6, 0x51, 0xf3, 0x0e,
        0x12, 0x36, 0x5a, 0xee, 0x29, 0x7b, 0x8d, 0x8c, 0x8f, 0x8a, 0x85, 0x94, 0xa7, 0xf2, 0x0d, 0x17,
        0x39, 0x4b, 0xdd, 0x7c, 0x84, 0x97, 0xa2, 0xfd, 0x1c, 0x24, 0x6c, 0xb4, 0xc7, 0x52, 0xf6, 0x01,
        ];
        assert(log@ == log_table());
        assert(alog@ == alog_table());
        let log_a = log[a as usize] as usize;
        let log_b = log[b as usize] as usize;
        let log_sum = (log_a + log_b) % 255;
        alog[log_sum]
    } else {
        0
    }
}

// ---------------------------------------------------------------------------
// The state and its transformations
// ---------------------------------------------------------------------------

/// The state as rows of bytes.
pub open spec fn grid(s: AesBlock) -> Seq<Seq<u8>> {
    Seq::new(4, |r: int| s@[r]@)
}

pub open spec fn sub_bytes_spec(g: Seq<Seq<u8>>) -> Seq<Seq<u8>> {
    Seq::new(4, |r: int| Seq::new(4, |c: int| sub_byte_spec(g[r][c])))
}

pub open spec fn inv_sub_bytes_spec(g: Seq<Seq<u8>>) -> Seq<Seq<u8>> {
    Seq::new(4, |r: int| Seq::new(4, |c: int| inv_sub_byte_spec(g[r][c])))
}

/// Row `r` rotated left by `r` positions.
pub open spec fn shift_rows_spec(g: Seq<Seq<u8>>) -> Seq<Seq<u8>> {
    Seq::new(4, |r: int| Seq::new(4, |c: int| g[r][(c + r) % 4]))
}

/// Row `r` rotated right by `r` positions.
pub open spec fn inv_shift_rows_spec(g: Seq<Seq<u8>>) -> Seq<Seq<u8>> {
    Seq::new(4, |r: int| Seq::new(4, |c: int| g[r][(c + 4 - r) % 4]))
}

/// Each column multiplied by the circulant matrix (2, 3, 1, 1), written
/// as `s_r + 2 (s_r + s_{r+1}) + (s_0 + s_1 + s_2 + s_3)`.
pub open spec fn mix_columns_spec(g: Seq<Seq<u8>>) -> Seq<Seq<u8>> {
    Seq::new(
        4,
        |r: int|
            Seq::new(
                4,
                |c: int|
                    g[r][c] ^ (mul_spec(g[r][c] ^ g[(r + 1) % 4][c], 2) ^ (g[0][c] ^ g[1][c] ^ g[2][c] ^ g[3][c])),
            ),
    )
}

/// The coefficients (14, 11, 13, 9) of the inverse mixing matrix.
pub open spec fn inv_mix_coef(k: int) -> u8 {
    if k == 0 {
        0x0e
    } else if k == 1 {
        0x0b
    } else if k == 2 {
        0x0d
    } else {
        0x09
    }
}

/// Each column multiplied by the circulant matrix (14, 11, 13, 9).
pub open spec fn inv_mix_columns_spec(g: Seq<Seq<u8>>) -> Seq<Seq<u8>> {
    Seq::new(
        4,
        |r: int|
            Seq::new(
                4,
                |c: int|
                    mul_spec(g[0][c], inv_mix_coef((4 - r) % 4)) ^ mul_spec(g[1][c], inv_mix_coef((5 - r) % 4))
                        ^ mul_spec(g[2][c], inv_mix_coef((6 - r) % 4)) ^ mul_spec(g[3][c], inv_mix_coef((7 - r) % 4)),
            ),
    )
}

/// The state xored with the round key of `round`, which the expanded key
/// holds column by column.
pub open spec fn add_round_key_spec(g: Seq<Seq<u8>>, ek: Seq<u8>, round: int) -> Seq<Seq<u8>> {
    Seq::new(4, |j: int| Seq::new(4, |i: int| g[j][i] ^ ek[round * 16 + i * 4 + j]))
}

pub open spec fn block_to_grid(b: Seq<u8>) -> Seq<Seq<u8>> {
    Seq::new(4, |j: int| Seq::new(4, |i: int| b[i * 4 + j]))
}

pub open spec fn grid_to_block(g: Seq<Seq<u8>>) -> Seq<u8> {
    Seq::new(16, |k: int| g[k % 4][k / 4])
}

fn add_round_key(round: usize, state: &mut AesBlock, expanded_key: &[u8; 240])
    requires
        round <= 14,
    ensures
        grid(*final(state)) == add_round_key_spec(grid(*old(state)), expanded_key@, round as int),
{
    let s = *state;
    let b = round * 16;
    let mut r: usize = 0;
    while r < 4
        invariant
            r <= 4,
            b == round * 16,
            round <= 14,
            forall|k: int| 0 <= k < r ==> state@[k]@ == add_round_key_spec(grid(s), expanded_key@, round as int)[k],
            forall|k: int| r <= k < 4 ==> state@[k] == s@[k],
        decreases 4 - r,
    {
        let row = state[r];
        state[r] = [
            row[0] ^ expanded_key[b + r],
            row[1] ^ expanded_key[b + 4 + r],
            row[2] ^ expanded_key[b + 8 + r],
            row[3] ^ expanded_key[b + 12 + r],
        ];
        assert(state@[r as int]@ =~= add_round_key_spec(grid(s), expanded_key@, round as int)[r as int]);
        r += 1;
    }
    assert(grid(*state) =~~= add_round_key_spec(grid(s), expanded_key@, round as int));
}

fn sub_bytes(state: &mut AesBlock)
    ensures
        grid(*final(state)) == sub_bytes_spec(grid(*old(state))),
{
    let s = *state;
    let mut r: usize = 0;
    while r < 4
        invariant
            r <= 4,
            forall|k: int| 0 <= k < r ==> state@[k]@ == sub_bytes_spec(grid(s))[k],
            forall|k: int| r <= k < 4 ==> state@[k] == s@[k],
        decreases 4 - r,
    {
        let row = state[r];
        state[r] = [sub_byte(row[0]), sub_byte(row[1]), sub_byte(row[2]), sub_byte(row[3])];
        assert(state@[r as int]@ =~= sub_bytes_spec(grid(s))[r as int]);
        r += 1;
    }
    assert(grid(*state) =~~= sub_bytes_spec(grid(s)));
}

fn inv_sub_bytes(state: &mut AesBlock)
    ensures
        grid(*final(state)) == inv_sub_bytes_spec(grid(*old(state))),
{
    let s = *state;
    let mut r: usize = 0;
    while r < 4
        invariant
            r <= 4,
            forall|k: int| 0 <= k < r ==> state@[k]@ == inv_sub_bytes_spec(grid(s))[k],
            forall|k: int| r <= k < 4 ==> state@[k] == s@[k],
        decreases 4 - r,
    {
        let row = state[r];
        state[r] = [
            inverse_affine_transform(row[0]),
            inverse_affine_transform(row[1]),
            inverse_affine_transform(row[2]),
            inverse_affine_transform(row[3]),
        ];
        assert(state@[r as int]@ =~= inv_sub_bytes_spec(grid(s))[r as int]);
        r += 1;
    }
    assert(grid(*state) =~~= inv_sub_bytes_spec(grid(s)));
}

/// Rotates row `r` of the state left by `r` positions.
pub fn shift_rows(state: &mut [[u8; 4]; 4])
    ensures
        grid(*final(state)) == shift_rows_spec(grid(*old(state))),
{
    let s = *state;
    state[1] = [s[1][1], s[1][2], s[1][3], s[1][0]];
    state[2] = [s[2][2], s[2][3], s[2][0], s[2][1]];
    state[3] = [s[3][3], s[3][0], s[3][1], s[3][2]];
    assert(grid(*state) =~~= shift_rows_spec(grid(s)));
}

fn inv_shift_rows(state: &mut AesBlock)
    ensures
        grid(*final(state)) == inv_shift_rows_spec(grid(*old(state))),
{
    let s = *state;
    state[1] = [s[1][3], s[1][0], s[1][1], s[1][2]];
    state[2] = [s[2][2], s[2][3], s[2][0], s[2][1]];
    state[3] = [s[3][1], s[3][2], s[3][3], s[3][0]];
    assert(grid(*state) =~~= inv_shift_rows_spec(grid(s)));
}

fn mix_columns(state: &mut AesBlock)
    ensures
        grid(*final(state)) == mix_columns_spec(grid(*old(state))),
{
    let s = *state;
    let mut out = s;
    let mut i: usize = 0;
    while i < 4
        invariant
            i <= 4,
            forall|r: int, c: int| 0 <= r < 4 && 0 <= c < 4 ==> #[trigger] out@[r]@[c] == (if c < i {
                mix_columns_spec(grid(s))[r][c]
            } else {
                s@[r]@[c]
            }),
        decreases 4 - i,
    {
        let (s0, s1, s2, s3) = (s[0][i], s[1][i], s[2][i], s[3][i]);
        let tmp = s0 ^ s1 ^ s2 ^ s3;
        let n0 = s0 ^ (crate::aes::mul(s0 ^ s1, 2) ^ tmp);
        let n1 = s1 ^ (crate::aes::mul(s1 ^ s2, 2) ^ tmp);
        let n2 = s2 ^ (crate::aes::mul(s2 ^ s3, 2) ^ tmp);
        let n3 = s3 ^ (crate::aes::mul(s3 ^ s0, 2) ^ tmp);
        let mut r0 = out[0];
        r0[i] = n0;
        out[0] = r0;
        let mut r1 = out[1];
        r1[i] = n1;
        out[1] = r1;
        let mut r2 = out[2];
        r2[i] = n2;
        out[2] = r2;
        let mut r3 = out[3];
        r3[i] = n3;
        out[3] = r3;
        i += 1;
    }
    *state = out;
    assert(grid(*state) =~~= mix_columns_spec(grid(s)));
}

fn inv_mix_columns(state: &mut AesBlock)
    ensures
        grid(*final(state)) == inv_mix_columns_spec(grid(*old(state))),
{
    let s = *state;
    let mut out = s;
    let mut i: usize = 0;
    while i < 4
        invariant
            i <= 4,
            forall|r: int, c: int| 0 <= r < 4 && 0 <= c < 4 ==> #[trigger] out@[r]@[c] == (if c < i {
                inv_mix_columns_spec(grid(s))[r][c]
            } else {
                s@[r]@[c]
            }),
        decreases 4 - i,
    {
        let (a, b, c, d) = (s[0][i], s[1][i], s[2][i], s[3][i]);
        let n0 = crate::aes::mul(a, 0x0e) ^ crate::aes::mul(b, 0x0b) ^ crate::aes::mul(c, 0x0d) ^ crate::aes::mul(d, 0x09);
        let n1 = crate::aes::mul(a, 0x09) ^ crate::aes::mul(b, 0x0e) ^ crate::aes::mul(c, 0x0b) ^ crate::aes::mul(d, 0x0d);
        let n2 = crate::aes::mul(a, 0x0d) ^ crate::aes::mul(b, 0x09) ^ crate::aes::mul(c, 0x0e) ^ crate::aes::mul(d, 0x0b);
        let n3 = crate::aes::mul(a, 0x0b) ^ crate::aes::mul(b, 0x0d) ^ crate::aes::mul(c, 0x09) ^ crate::aes::mul(d, 0x0e);
        let mut r0 = out[0];
        r0[i] = n0;
        out[0] = r0;
        let mut r1 = out[1];
        r1[i] = n1;
        out[1] = r1;
        let mut r2 = out[2];
        r2[i] = n2;
        out[2] = r2;
        let mut r3 = out[3];
        r3[i] = n3;
        out[3] = r3;
        i += 1;
    }
    *state = out;
    assert(grid(*state) =~~= inv_mix_columns_spec(grid(s)));
}

fn copy_block_to_state(block: &[u8; AES_BLOCK_SIZE]) -> (state: AesBlock)
    ensures
        grid(state) == block_to_grid(block@),
{
    let state = [
        [block[0], block[4], block[8], block[12]],
        [block[1], block[5], block[9], block[13]],
        [block[2], block[6], block[10], block[14]],
        [block[3], block[7], block[11], block[15]],
    ];
    assert(grid(state) =~~= block_to_grid(block@));
    state
}

fn copy_state_to_block(state: &AesBlock) -> (block: [u8; AES_BLOCK_SIZE])
    ensures
        block@ == grid_to_block(grid(*state)),
{
    let block = [
        state[0][0], state[1][0], state[2][0], state[3][0],
        state[0][1], state[1][1], state[2][1], state[3][1],
        state[0][2], state[1][2], state[2][2], state[3][2],
        state[0][3], state[1][3], state[2][3], state[3][3],
    ];
    assert(block@ =~= grid_to_block(grid(*state)));
    block
}

// ---------------------------------------------------------------------------
// Key schedule and the cipher
// ---------------------------------------------------------------------------

pub open spec fn sub_word(w: Seq<u8>) -> Seq<u8> {
    Seq::new(4, |j: int| sub_byte_spec(w[j]))
}

pub open spec fn rot_word(w: Seq<u8>) -> Seq<u8> {
    seq![w[1], w[2], w[3], w[0]]
}

/// Word `i` of the key schedule of a key of `nk` words.
pub open spec fn key_word(key: Seq<u8>, nk: nat, i: nat) -> Seq<u8>
    decreases i,
{
    if i < nk || nk == 0 {
        Seq::new(4, |j: int| key[4 * i + j])
    } else {
        let prev = key_word(key, nk, (i - 1) as nat);
        let temp = if i % nk == 0 {
            let t = sub_word(rot_word(prev));
            t.update(0, t[0] ^ rc_spec((i / nk) as u8))
        } else if nk > 6 && i % nk == 4 {
            sub_word(prev)
        } else {
            prev
        };
        Seq::new(4, |j: int| key_word(key, nk, (i - nk) as nat)[j] ^ temp[j])
    }
}

/// The expanded key: the `4 * (nr + 1)` schedule words, then zeros up to
/// 240 bytes.
pub open spec fn expanded_key_spec(key: Seq<u8>, nk: nat, nr: nat) -> Seq<u8> {
    Seq::new(240, |b: int| if b < 16 * (nr + 1) { key_word(key, nk, (b / 4) as nat)[b % 4] } else { 0u8 })
}

/// The key lengths in bytes that AES accepts.
pub open spec fn valid_key_len(len: int) -> bool {
    len == 16 || len == 24 || len == 32
}

/// (key words, rounds) for a key of `len` bytes.
pub open spec fn key_params(len: int) -> (nat, nat) {
    if len == 16 {
        (4, 10)
    } else if len == 24 {
        (6, 12)
    } else {
        (8, 14)
    }
}

#[verifier::rlimit(60)]
fn expand_key(key: &[u8], nk: usize, nr: usize) -> (ek: [u8; 240])
    requires
        valid_key_len(key.len() as int),
        (nk as nat, nr as nat) == key_params(key.len() as int),
    ensures
        ek@ == expanded_key_spec(key@, nk as nat, nr as nat),
{
    let mut ek = [0u8; 240];
    let mut b: usize = 0;
    while b < 4 * nk
        invariant
            b <= 4 * nk,
            4 * nk == key.len(),
            4 <= nk <= 8,
            forall|t: int| 0 <= t < b ==> ek@[t] == key_word(key@, nk as nat, (t / 4) as nat)[t % 4],
            forall|t: int| b <= t < 240 ==> ek@[t] == 0,
        decreases 4 * nk - b,
    {
        ek[b] = key[b];
        b += 1;
    }
    let mut i: usize = nk;
    while i < 4 * (nr + 1)
        invariant
            nk <= i <= 4 * (nr + 1),
            (nk as nat, nr as nat) == key_params(key.len() as int),
            valid_key_len(key.len() as int),
            forall|t: int| 0 <= t < 4 * i ==> ek@[t] == key_word(key@, nk as nat, (t / 4) as nat)[t % 4],
            forall|t: int| 4 * i <= t < 240 ==> ek@[t] == 0,
        decreases 4 * (nr + 1) - i,
    {
        let p = (i - 1) * 4;
        let mut temp = [ek[p], ek[p + 1], ek[p + 2], ek[p + 3]];
        let ghost prev = key_word(key@, nk as nat, (i - 1) as nat);
        assert(temp@ =~= prev);
        if i % nk == 0 {
            temp = [sub_byte(temp[1]), sub_byte(temp[2]), sub_byte(temp[3]), sub_byte(temp[0])];
            let r = rc((i / nk) as u8);
            temp[0] = temp[0] ^ r;
        } else if nk > 6 && i % nk == 4 {
            temp = [sub_byte(temp[0]), sub_byte(temp[1]), sub_byte(temp[2]), sub_byte(temp[3])];
        }
        let ghost word = key_word(key@, nk as nat, i as nat);
        let ghost back = key_word(key@, nk as nat, (i - nk) as nat);
        assert(forall|j: int| 0 <= j < 4 ==> #[trigger] word[j] == back[j] ^ temp@[j]);
        let q = (i - nk) * 4;
        let mut j: usize = 0;
        while j < 4
            invariant
                j <= 4,
                q == (i - nk) * 4,
                i < 4 * (nr + 1),
                nr <= 14,
                4 <= nk <= i,
                forall|t: int| 0 <= t < 4 * i ==> ek@[t] == key_word(key@, nk as nat, (t / 4) as nat)[t % 4],
                forall|t: int| 4 * i <= t < 4 * i + j ==> ek@[t] == word[t - 4 * i],
                forall|t: int| 4 * i + j <= t < 240 ==> ek@[t] == 0,
                forall|t: int| 0 <= t < 4 ==> #[trigger] word[t] == back[t] ^ temp@[t],
                forall|t: int| 0 <= t < 4 ==> #[trigger] back[t] == key_word(key@, nk as nat, ((q + t) / 4) as nat)[(q + t) % 4],
            decreases 4 - j,
        {
            let v = ek[q + j];
            assert(v == back[j as int]);
            let nv = v ^ temp[j];
            assert(nv == word[j as int]);
            ek[i * 4 + j] = nv;
            j += 1;
        }
        i += 1;
    }
    assert(ek@ =~= expanded_key_spec(key@, nk as nat, nr as nat));
    ek
}

fn calculate_parameters(key_length_bytes: usize) -> (r: (usize, usize))
    requires
        valid_key_len(key_length_bytes as int),
    ensures
        (r.0 as nat, r.1 as nat) == key_params(key_length_bytes as int),
{
    let words_in_key = key_length_bytes / 4;
    let encryption_rounds: usize = if words_in_key == 4 {
        10
    } else if words_in_key == 6 {
        12
    } else {
        14
    };
    (words_in_key, encryption_rounds)
}

fn validate_key_len(key_len: usize) -> (r: Result<(), AesError>)
    ensures
        valid_key_len(key_len as int) ==> r is Ok,
        !valid_key_len(key_len as int) ==> r == Err::<(), AesError>(AesError::InvalidKeyLength(key_len)),
{
    if key_len == AES_128_KEY_SIZE || key_len == AES_192_KEY_SIZE || key_len == AES_256_KEY_SIZE {
        Ok(())
    } else {
        Err(AesError::InvalidKeyLength(key_len))
    }
}

pub open spec fn enc_round(g: Seq<Seq<u8>>, ek: Seq<u8>, round: int) -> Seq<Seq<u8>> {
    add_round_key_spec(mix_columns_spec(shift_rows_spec(sub_bytes_spec(g))), ek, round)
}

/// The state after the full rounds `1..=n`.
pub open spec fn enc_rounds(g: Seq<Seq<u8>>, ek: Seq<u8>, n: nat) -> Seq<Seq<u8>>
    decreases n,
{
    if n == 0 {
        g
    } else {
        enc_round(enc_rounds(g, ek, (n - 1) as nat), ek, n as int)
    }
}

/// The AES encryption of `block` under `key`.
pub open spec fn aes_enc_spec(block: Seq<u8>, key: Seq<u8>) -> Seq<u8> {
    let (nk, nr) = key_params(key.len() as int);
    let ek = expanded_key_spec(key, nk, nr);
    let g0 = add_round_key_spec(block_to_grid(block), ek, 0);
    let g1 = enc_rounds(g0, ek, (nr - 1) as nat);
    grid_to_block(add_round_key_spec(shift_rows_spec(sub_bytes_spec(g1)), ek, nr as int))
}

pub open spec fn dec_round(g: Seq<Seq<u8>>, ek: Seq<u8>, round: int) -> Seq<Seq<u8>> {
    inv_mix_columns_spec(add_round_key_spec(inv_sub_bytes_spec(inv_shift_rows_spec(g)), ek, round))
}

/// The state after the inverse rounds `nr - 1` down to `nr - n`.
pub open spec fn dec_rounds(g: Seq<Seq<u8>>, ek: Seq<u8>, nr: int, n: nat) -> Seq<Seq<u8>>
    decreases n,
{
    if n == 0 {
        g
    } else {
        dec_round(dec_rounds(g, ek, nr, (n - 1) as nat), ek, nr - n)
    }
}

/// The AES decryption of `block` under `key`.
pub open spec fn aes_dec_spec(block: Seq<u8>, key: Seq<u8>) -> Seq<u8> {
    let (nk, nr) = key_params(key.len() as int);
    let ek = expanded_key_spec(key, nk, nr);
    let g0 = add_round_key_spec(block_to_grid(block), ek, nr as int);
    let g1 = dec_rounds(g0, ek, nr as int, (nr - 1) as nat);
    grid_to_block(add_round_key_spec(inv_sub_bytes_spec(inv_shift_rows_spec(g1)), ek, 0))
}

/// Encrypts one block under a 16-, 24- or 32-byte key.
pub fn aes_enc_block(block: &[u8; AES_BLOCK_SIZE], key: &[u8]) -> (r: Result<[u8; AES_BLOCK_SIZE], AesError>)
    ensures
        !valid_key_len(key.len() as int) ==> r == Err::<[u8; AES_BLOCK_SIZE], AesError>(AesError::InvalidKeyLength(key.len())),
        valid_key_len(key.len() as int) ==> (r matches Ok(c) && c@ == aes_enc_spec(block@, key@)),
{
    let key_len = key.len();
    match validate_key_len(key_len) {
        Ok(()) => {},
        Err(e) => {
            return Err(e);
        },
    }
    let (nk, nr) = calculate_parameters(key_len);
    let mut state = copy_block_to_state(block);
    let expanded_key = expand_key(key, nk, nr);
    add_round_key(0, &mut state, &expanded_key);
    let ghost g0 = grid(state);
    let mut round: usize = 1;
    while round < nr
        invariant
            1 <= round <= nr,
            nr <= 14,
            grid(state) == enc_rounds(g0, expanded_key@, (round - 1) as nat),
        decreases nr - round,
    {
        sub_bytes(&mut state);
        shift_rows(&mut state);
        mix_columns(&mut state);
        add_round_key(round, &mut state, &expanded_key);
        round += 1;
    }
    sub_bytes(&mut state);
    shift_rows(&mut state);
    add_round_key(nr, &mut state, &expanded_key);
    Ok(copy_state_to_block(&state))
}

/// Decrypts one block under a 16-, 24- or 32-byte key.
pub fn aes_dec_block(ciphertext: &[u8; AES_BLOCK_SIZE], key: &[u8]) -> (r: Result<[u8; AES_BLOCK_SIZE], AesError>)
    ensures
        !valid_key_len(key.len() as int) ==> r == Err::<[u8; AES_BLOCK_SIZE], AesError>(AesError::InvalidKeyLength(key.len())),
        valid_key_len(key.len() as int) ==> (r matches Ok(p) && p@ == aes_dec_spec(ciphertext@, key@)),
{
    let key_len = key.len();
    match validate_key_len(key_len) {
        Ok(()) => {},
        Err(e) => {
            return Err(e);
        },
    }
    let (nk, nr) = calculate_parameters(key_len);
    let mut state = copy_block_to_state(ciphertext);
    let expanded_key = expand_key(key, nk, nr);
    add_round_key(nr, &mut state, &expanded_key);
    let ghost g0 = grid(state);
    let mut round: usize = nr - 1;
    while round > 0
        invariant
            round < nr,
            nr <= 14,
            grid(state) == dec_rounds(g0, expanded_key@, nr as int, (nr - 1 - round) as nat),
        decreases round,
    {
        inv_shift_rows(&mut state);
        inv_sub_bytes(&mut state);
        add_round_key(round, &mut state, &expanded_key);
        inv_mix_columns(&mut state);
        round -= 1;
    }
    inv_shift_rows(&mut state);
    inv_sub_bytes(&mut state);
    add_round_key(0, &mut state, &expanded_key);
    Ok(copy_state_to_block(&state))
}

} // verus!
