use cryptkit::shamir::{generate, reconstruct};

#[test]
fn shamir_ex() {
    let shares = generate(b"secret secret secret!", 5, 4);

    // <4 can't reconstruct secret
    assert_ne!(reconstruct(&shares[..1]), b"secret secret secret!");
    assert_ne!(reconstruct(&shares[..2]), b"secret secret secret!");
    assert_ne!(reconstruct(&shares[..3]), b"secret secret secret!");

    // >=4 can reconstruct secret
    assert_eq!(reconstruct(&shares[..4]), b"secret secret secret!");
    assert_eq!(reconstruct(&shares[..5]), b"secret secret secret!");
}

#[test]
fn shamir_share_layout_and_any_subset() {
    let shares = generate(b"key", 6, 3);
    assert_eq!(shares.len(), 6);
    for (i, s) in shares.iter().enumerate() {
        assert_eq!(s.len(), 4);
        assert_eq!(s[0] as usize, i + 1);
    }
    let subset = vec![shares[5].clone(), shares[1].clone(), shares[3].clone()];
    assert_eq!(reconstruct(&subset), b"key");
    assert_eq!(reconstruct(&[]), Vec::<u8>::new());
}

#[test]
fn shamir_degree_zero_copies_the_secret() {
    let shares = generate(&[7, 9], 3, 1);
    for s in &shares {
        assert_eq!(&s[1..], &[7, 9]);
    }
}
