use cryptkit::polynomial::{P128, P16, P32, P64, P8};

#[test]
fn p8_arithmetic() {
    assert_eq!(P8(0x12) + P8(0x34), P8(0x26));
    assert_eq!(P8(0x12) - P8(0x34), P8(0x26));
    // (x + 1)(x + 1) = x^2 + 1
    assert_eq!(P8(0x03) * P8(0x03), P8(0x05));
    assert_eq!(P8(0x05) / P8(0x03), P8(0x03));
    assert_eq!(P8(0x05) % P8(0x03), P8(0x00));
    assert_eq!(P8(0x07) % P8(0x03), P8(0x01));
    assert_eq!(P8(0x02).pow(3), P8(0x08));
    assert_eq!(P8(0x03).pow(0), P8(0x01));
    assert_eq!(P8(0x12).naive_checked_div(P8(0)), None);
    assert_eq!(P8(0x12).naive_checked_rem(P8(0)), None);
    assert_eq!(u8::from(P8(9)), 9);
    assert_eq!(!P8(0x0f), P8(0xf0));
}

#[test]
fn p16_reduces_by_the_aes_modulus() {
    // x^8 mod (x^8 + x^4 + x^3 + x + 1) = x^4 + x^3 + x + 1
    assert_eq!(P16(0x100).naive_rem(P16(0x11b)), P16(0x1b));
    assert_eq!(P16(0x100).div(P16(0x11b)), P16(0x1));
    assert_eq!(P16(0x12).naive_wrapping_mul(P16(0x34)), P16(0x0328));
    assert_eq!(P16::new(5).get(), 5);
}

#[test]
fn wide_polynomials() {
    assert_eq!(P32(0xff).mul(P32(0x101)), P32(0xffff));
    assert_eq!(P64(1 << 40).naive_rem(P64(0x104c11db7)).naive_rem(P64(0x104c11db7)), P64(1 << 40).naive_rem(P64(0x104c11db7)));
    assert_eq!(P64(0x104c11db7).div(P64(0x104c11db7)), P64(1));
    assert_eq!(P128(0x1000000000000001b).naive_rem(P128(0x2)), P128(1));
    assert_eq!(P128(3).sub(P128(1)), P128(2));
    let mut x = P32(6);
    x *= P32(3);
    assert_eq!(x, P32(10));
}
