use cryptkit::diffie_hellman::{private_key_from_seed, public_key, secret};

#[test]
fn public_key_correct() {
    let p: u64 = 23;
    let g: u64 = 5;

    let private_key: u64 = 6;
    let expected: u64 = 8;

    assert_eq!(public_key(p, g, private_key), expected);
}

#[test]
fn secret_key_correct() {
    let p: u64 = 11;

    let private_key_a = 7;
    let public_key_b = 8;
    let secret = secret(p, public_key_b, private_key_a);
    let expected = 2;

    assert_eq!(secret, expected);
}

#[test]
fn public_key_correct_big_numbers() {
    let p: u64 = 4_294_967_299;

    let g: u64 = 8;

    let private_key: u64 = 4_294_967_296;

    let expected: u64 = 4096;

    assert_eq!(public_key(p, g, private_key), expected);
}

#[test]
fn secret_key_correct_big_numbers() {
    let p: u64 = 4_294_967_927;

    let private_key_a = 4_294_967_300;

    let public_key_b = 843;

    let secret = secret(p, public_key_b, private_key_a);

    let expected = 1_389_354_282;

    assert_eq!(secret, expected);
}

const PRIME_64BIT_1: u64 = 0xFFFF_FFFF_FFFF_FFC5;
const PRIME_64BIT_2: u64 = 0xFFFF_FFFF_FFFF_FFAC;
const PRIVATE_KEY_64BIT: u64 = 0xFFFF_FFFF_FFFF_FFC3;
const PUBLIC_KEY_64BIT: u64 = 0xB851_EB85_1EB8_51C1;

#[test]
fn public_key_correct_biggest_numbers() {
    assert_eq!(
        public_key(PRIME_64BIT_1, PRIME_64BIT_2, PRIVATE_KEY_64BIT),
        PUBLIC_KEY_64BIT
    );
}

#[test]
fn secret_key_correct_biggest_numbers() {
    let private_key_b = 0xEFFF_FFFF_FFFF_FFC0;
    let public_key_b = public_key(PRIME_64BIT_1, PRIME_64BIT_2, private_key_b);

    let expected_b = 4_340_425_873_327_658_043;
    assert_eq!(public_key_b, expected_b);

    let expected_key = 12_669_955_479_143_291_250;

    let secret_key = secret(PRIME_64BIT_1, public_key_b, PRIVATE_KEY_64BIT);

    assert_eq!(secret_key, expected_key);

    let secret_key = secret(PRIME_64BIT_1, PUBLIC_KEY_64BIT, private_key_b);

    assert_eq!(secret_key, expected_key);
}

#[test]
fn zero_exponent_gives_one() {
    assert_eq!(public_key(1, 5, 0), 1);
    assert_eq!(public_key(1, 5, 3), 0);
    assert_eq!(secret(13, 0, 4), 0);
}

#[test]
fn seeded_private_keys_are_in_range_and_agree() {
    for (i, p) in [5u64, 7, 11, 13, 773, 6131, PRIME_64BIT_1].iter().enumerate() {
        let a = private_key_from_seed(*p, 1000 + i as u128);
        let b = private_key_from_seed(*p, 2000 + i as u128);
        assert!(1 < a && a < *p);
        assert!(1 < b && b < *p);
        let g = 3;
        let sa = secret(*p, public_key(*p, g, b), a);
        let sb = secret(*p, public_key(*p, g, a), b);
        assert_eq!(sa, sb);
    }
    assert_eq!(private_key_from_seed(3, 77), 2);
}
