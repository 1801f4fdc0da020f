//! The Hamming(7,4) code: four data bits protected by three parity bits.
use vstd::prelude::*;

verus! {

/// The outcome of decoding a 7-bit word: its data bits as they were, or
/// after flipping the bit at the reported (1-based) position.
#[derive(Debug, Clone, Copy, PartialEq, Eq)]
pub enum Decoded {
    Valid([bool; 4]),
    Corrected(usize, [bool; 4]),
}

/// The codeword of the data bits `d`: parity, parity, `d[0]`, parity,
/// `d[1]`, `d[2]`, `d[3]`.
pub open spec fn encode_spec(d: Seq<bool>) -> Seq<bool> {
    seq![d[0] ^ d[1] ^ d[3], d[0] ^ d[2] ^ d[3], d[0], d[1] ^ d[2] ^ d[3], d[1], d[2], d[3]]
}

pub open spec fn bit(b: bool) -> int {
    if b { 1 } else { 0 }
}

/// The position that decoding derives from the three parity checks of
/// `e`: four times the sum of the first check, twice the second and the
/// third.
pub open spec fn error_position_spec(e: Seq<bool>) -> int {
    let p1 = e[0] ^ e[2] ^ e[4] ^ e[6];
    let p2 = e[1] ^ e[2] ^ e[5] ^ e[6];
    let p3 = e[3] ^ e[4] ^ e[5] ^ e[6];
    4 * (bit(p1) + 2 * bit(p2) + bit(p3))
}

/// The data bits of `e` after the bit at `pos` (1-based, 0 for none) is
/// flipped.
pub open spec fn corrected_data(e: Seq<bool>, pos: int) -> Seq<bool> {
    let c = if pos != 0 { e.update(pos - 1, !e[pos - 1]) } else { e };
    seq![c[2], c[4], c[5], c[6]]
}

pub fn encode(d: [bool; 4]) -> (r: [bool; 7])
    ensures
        r@ == encode_spec(d@),
{
    let p1 = d[0] ^ d[1] ^ d[3];
    let p2 = d[0] ^ d[2] ^ d[3];
    let p3 = d[1] ^ d[2] ^ d[3];
    let r = [p1, p2, d[0], p3, d[1], d[2], d[3]];
    assert(r@ == encode_spec(d@));
    r
}

/// A codeword passes all three parity checks, and decoding it gives back
/// the data bits unchanged.
pub proof fn lemma_decode_of_encode(d: Seq<bool>)
    requires
        d.len() == 4,
    ensures
        error_position_spec(encode_spec(d)) == 0,
        corrected_data(encode_spec(d), 0) == d,
{
    assert(corrected_data(encode_spec(d), 0) =~= d);
}

/// The (1-based) position that decoding would correct in `e`, or zero.
pub fn error_position(e: [bool; 7]) -> (r: usize)
    ensures
        r == error_position_spec(e@),
{
    let p1 = e[0] ^ e[2] ^ e[4] ^ e[6];
    let p2 = e[1] ^ e[2] ^ e[5] ^ e[6];
    let p3 = e[3] ^ e[4] ^ e[5] ^ e[6];
    let b1: usize = if p1 { 1 } else { 0 };
    let b2: usize = if p2 { 1 } else { 0 };
    let b3: usize = if p3 { 1 } else { 0 };
    (b1 + b2 * 2 + b3) * 4
}

/// Decodes a 7-bit word, correcting the bit at the derived position when
/// it is not zero. The derived position must lie within the word.
pub fn decode(e: [bool; 7]) -> (r: Decoded)
    requires
        error_position_spec(e@) <= 7,
    ensures
        error_position_spec(e@) == 0 ==> (r matches Decoded::Valid(d) && d@ == corrected_data(e@, 0)),
        error_position_spec(e@) != 0 ==> (r matches Decoded::Corrected(pos, d)
            && pos == error_position_spec(e@) && d@ == corrected_data(e@, pos as int)),
{
    let error_position = error_position(e);
    let mut corrected = e;
    if error_position != 0 {
        let flipped = !corrected[error_position - 1];
        corrected[error_position - 1] = flipped;
    }
    let data = [corrected[2], corrected[4], corrected[5], corrected[6]];
    assert(data@ == corrected_data(e@, error_position as int));
    if error_position == 0 {
        Decoded::Valid(data)
    } else {
        Decoded::Corrected(error_position, data)
    }
}

} // verus!
