//! A keyed message authentication code built on SHA-1.
//!
//! The key is first brought to a 64-byte block (zero-padded, or hashed when
//! longer); its first 40 bytes, xored with the inner and outer pad bytes,
//! prefix the two nested hashes.
use vstd::prelude::*;
use crate::sha1::{hashable_len, sha1_spec, Sha1};

verus! {

pub struct HMAC;

/// The key brought to a 64-byte block.
pub open spec fn block_key_spec(k: Seq<u8>) -> Seq<u8> {
    if k.len() <= 64 {
        k + Seq::new((64 - k.len()) as nat, |i: int| 0u8)
    } else {
        sha1_spec(k) + Seq::new(44, |i: int| 0u8)
    }
}

/// The inner pad: the first 40 key bytes xored with 0x36.
pub open spec fn inner_pad_spec(k: Seq<u8>) -> Seq<u8> {
    Seq::new(40, |i: int| 0x36u8 ^ block_key_spec(k)[i])
}

/// The outer pad: the inner pad xored with 0x6a (the key bytes xored
/// with 0x5c).
pub open spec fn outer_pad_spec(k: Seq<u8>) -> Seq<u8> {
    Seq::new(40, |i: int| inner_pad_spec(k)[i] ^ 0x6au8)
}

pub open spec fn mac_spec(input: Seq<u8>, key: Seq<u8>) -> Seq<u8> {
    sha1_spec(outer_pad_spec(key) + sha1_spec(inner_pad_spec(key) + input))
}

impl HMAC {
    pub fn mac(input: &[u8], secret_key: &[u8]) -> (r: [u8; 20])
        requires
            hashable_len(input.len() + 40),
            hashable_len(secret_key.len() as int),
        ensures
            r@ == mac_spec(input@, secret_key@),
    {
        let block_sized_key = Self::block_size_key(secret_key);
        let mut padded: Vec<u8> = Vec::new();
        let mut i: usize = 0;
        while i < 40
            invariant
                i <= 40,
                block_sized_key@ == block_key_spec(secret_key@),
                block_sized_key@.len() == 64,
                padded@ == inner_pad_spec(secret_key@).take(i as int),
            decreases 40 - i,
        {
            padded.push(0x36u8 ^ block_sized_key[i]);
            i += 1;
            assert(padded@ == inner_pad_spec(secret_key@).take(i as int));
        }
        assert(padded@ == inner_pad_spec(secret_key@));
        let mut ih_input = padded.clone();
        assert(ih_input@ == padded@);
        let mut j: usize = 0;
        while j < input.len()
            invariant
                j <= input.len(),
                ih_input@ == padded@ + input@.take(j as int),
            decreases input.len() - j,
        {
            ih_input.push(input[j]);
            j += 1;
            assert(ih_input@ == padded@ + input@.take(j as int));
        }
        assert(input@.take(input.len() as int) == input@);
        let ih = Sha1::hash(ih_input.as_slice());
        let mut oh_input: Vec<u8> = Vec::new();
        let mut k: usize = 0;
        while k < 40
            invariant
                k <= 40,
                padded@ == inner_pad_spec(secret_key@),
                oh_input@ == outer_pad_spec(secret_key@).take(k as int),
            decreases 40 - k,
        {
            oh_input.push(padded[k] ^ 0x6a);
            k += 1;
            assert(oh_input@ == outer_pad_spec(secret_key@).take(k as int));
        }
        let ghost outer = oh_input@;
        assert(outer == outer_pad_spec(secret_key@));
        let mut t: usize = 0;
        while t < 20
            invariant
                t <= 20,
                ih@.len() == 20,
                oh_input@ == outer + ih@.take(t as int),
            decreases 20 - t,
        {
            oh_input.push(ih[t]);
            t += 1;
            assert(oh_input@ == outer + ih@.take(t as int));
        }
        assert(ih@.take(20) == ih@);
        Sha1::hash(oh_input.as_slice())
    }

    fn block_size_key(secret_key: &[u8]) -> (r: Vec<u8>)
        requires
            hashable_len(secret_key.len() as int),
        ensures
            r@ == block_key_spec(secret_key@),
            r@.len() == 64,
    {
        let mut res: Vec<u8> = Vec::new();
        if secret_key.len() <= 64 {
            let mut i: usize = 0;
            while i < secret_key.len()
                invariant
                    i <= secret_key.len(),
                    res@ == secret_key@.take(i as int),
                decreases secret_key.len() - i,
            {
                res.push(secret_key[i]);
                i += 1;
            }
        } else {
            let h = Sha1::hash(secret_key);
            let mut i: usize = 0;
            while i < 20
                invariant
                    i <= 20,
                    h@.len() == 20,
                    res@ == h@.take(i as int),
                decreases 20 - i,
            {
                res.push(h[i]);
                i += 1;
            }
        }
        let ghost head = res@;
        while res.len() < 64
            invariant
                res@.len() <= 64,
                head.len() <= 64,
                res@ == head + Seq::new((res@.len() - head.len()) as nat, |i: int| 0u8),
            decreases 64 - res.len(),
        {
            res.push(0);
            assert(res@ == head + Seq::new((res@.len() - head.len()) as nat, |i: int| 0u8));
        }
        assert(res@ == block_key_spec(secret_key@));
        res
    }
}

} // verus!
