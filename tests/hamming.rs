use cryptkit::hamming::{decode, encode, Decoded};

#[test]
fn hamming_encode_places_parity_bits() {
    assert_eq!(encode([false; 4]), [false; 7]);
    assert_eq!(encode([true, false, false, false]), [true, true, true, false, false, false, false]);
    assert_eq!(encode([true; 4]), [true; 7]);
}

#[test]
fn hamming_decodes_valid_words() {
    for n in 0..16u8 {
        let d = [n & 1 != 0, n & 2 != 0, n & 4 != 0, n & 8 != 0];
        assert_eq!(decode(encode(d)), Decoded::Valid(d));
    }
}

#[test]
fn hamming_reports_the_derived_position() {
    // flipping the third parity bit trips only the third check
    let mut e = encode([true, false, true, false]);
    e[3] = !e[3];
    assert_eq!(decode(e), Decoded::Corrected(4, [true, false, true, false]));
}
