use cryptkit::galois_field::Gf256Aes;

#[test]
fn add() {
    assert_eq!(Gf256Aes(0x12) + Gf256Aes(0x34), Gf256Aes(0x26));
}

#[test]
fn sub() {
    assert_eq!(Gf256Aes(0x12) - Gf256Aes(0x34), Gf256Aes(0x26));
}

#[test]
fn mul() {
    assert_eq!(Gf256Aes(0x12) * Gf256Aes(0x34), Gf256Aes(0x05));
}

#[test]
fn div() {
    assert_eq!(Gf256Aes(0x12) / Gf256Aes(0x34), Gf256Aes(0x54));
}

#[test]
fn aes_field_inverse_and_pow() {
    // the classic FIPS-197 example: {53} * {ca} = {01}
    assert_eq!(Gf256Aes(0x53).recip(), Gf256Aes(0xca));
    assert_eq!(Gf256Aes(0x53).mul(Gf256Aes(0xca)), Gf256Aes(0x01));
    assert_eq!(Gf256Aes(0x57).naive_mul(Gf256Aes(0x83)), Gf256Aes(0xc1));
    assert_eq!(Gf256Aes(0x03).pow(0), Gf256Aes(1));
    assert_eq!(Gf256Aes(0x03).pow(2), Gf256Aes(0x05));
    assert_eq!(Gf256Aes(0x00).checked_recip(), None);
    assert_eq!(Gf256Aes(0x12).naive_checked_div(Gf256Aes(0)), None);
    assert_eq!(Gf256Aes(0x12).naive_checked_recip(), Some(Gf256Aes(0x12).naive_recip()));
    assert_eq!(Gf256Aes(0x12).div(Gf256Aes(0x34)), Gf256Aes(0x12).naive_div(Gf256Aes(0x34)));
    assert_eq!(-Gf256Aes(0x12), Gf256Aes(0x12));
    assert_eq!(!Gf256Aes(0x0f), Gf256Aes(0xf0));
    assert_eq!(Gf256Aes::new(7).get(), 7);
    assert_eq!(Gf256Aes(0x12).add(Gf256Aes(0x34)), Gf256Aes(0x12).sub(Gf256Aes(0x34)));
    let mut x = Gf256Aes(0x12);
    x *= Gf256Aes(0x34);
    x += Gf256Aes(0x01);
    x -= &Gf256Aes(0x01);
    assert_eq!(x, Gf256Aes(0x05));
}
