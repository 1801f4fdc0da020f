use cryptkit::hmac::HMAC;
use cryptkit::md5::MD5;
use cryptkit::sha1::{rotate_left_u32, Sha1};

#[test]
fn md5_abc() {
    let res = MD5::hash(b"abc");
    assert_eq!(
        res,
        [
            0x90, 0x01, 0x50, 0x98, // first
            0x3c, 0xd2, 0x4f, 0xb0, // second
            0xd6, 0x96, 0x3f, 0x7d, // third
            0x28, 0xe1, 0x7f, 0x72, // fourth
        ]
    );
}

#[test]
fn md5_empty() {
    let res = MD5::hash(b"");
    assert_eq!(
        res,
        [
            0xd4, 0x1d, 0x8c, 0xd9, // first
            0x8f, 0x00, 0xb2, 0x04, // second
            0xe9, 0x80, 0x09, 0x98, // third
            0xec, 0xf8, 0x42, 0x7e, // fourth
        ]
    );
}

#[test]
fn md5_ex1() {
    let res = MD5::hash(b"abcdbcdecdefdefgefghfghighijhijkijkljklmklmnlmnomnopnopq");
    assert_eq!(
        res,
        [
            0x82, 0x15, 0xef, 0x07, // first
            0x96, 0xa2, 0x0b, 0xca, // second
            0xaa, 0xe1, 0x16, 0xd3, // third
            0x87, 0x6c, 0x66, 0x4a, // fourth
        ]
    );
}

#[test]
fn sha1_abc() {
    let res = Sha1::hash(b"abc");
    assert_eq!(
        res,
        [
            0xA9, 0x99, 0x3E, 0x36, // easier to see in fours
            0x47, 0x06, 0x81, 0x6A, // second
            0xBA, 0x3E, 0x25, 0x71, // third
            0x78, 0x50, 0xc2, 0x6c, // fourth
            0x9c, 0xd0, 0xd8, 0x9d, // fifth
        ]
    );
}

#[test]
fn sha1_empty() {
    let res = Sha1::hash(b"");
    assert_eq!(
        res,
        [
            0xda, 0x39, 0xa3, 0xee, // first
            0x5e, 0x6b, 0x4b, 0x0d, // second
            0x32, 0x55, 0xbf, 0xef, // third
            0x95, 0x60, 0x18, 0x90, // fourth
            0xaf, 0xd8, 0x07, 0x09, // fifth
        ]
    );
}

#[test]
fn sha1_ex1() {
    let res = Sha1::hash(b"abcdbcdecdefdefgefghfghighijhijkijkljklmklmnlmnomnopnopq");
    assert_eq!(
        res,
        [
            0x84, 0x98, 0x3e, 0x44, // first
            0x1c, 0x3b, 0xd2, 0x6e, // second
            0xba, 0xae, 0x4a, 0xa1, // third
            0xf9, 0x51, 0x29, 0xe5, // fourth
            0xe5, 0x46, 0x70, 0xf1, // fifth
        ]
    );
}

#[test]
fn hmac_empty() {
    let h = HMAC::mac(b"", &[]);
    assert_eq!(
        h,
        [
            0x2c, 0x4c, 0x5d, 0xb0, // first
            0x09, 0x76, 0xff, 0xdb, // second
            0x10, 0xdb, 0xd5, 0x32, // third
            0xe2, 0x78, 0x35, 0xa9, // fourth
            0x84, 0x8e, 0x6c, 0xef, // fifth
        ]
    );
}

#[test]
fn digests_of_block_boundary_lengths_differ() {
    // 55, 56 and 64 bytes straddle the one-block padding limit
    let a = Sha1::hash(&[b'a'; 55]);
    let b = Sha1::hash(&[b'a'; 56]);
    let c = Sha1::hash(&[b'a'; 64]);
    assert_ne!(a, b);
    assert_ne!(b, c);
    assert_ne!(MD5::hash(&[0u8; 55]), MD5::hash(&[0u8; 56]));
}

#[test]
fn hmac_long_key_is_hashed_first() {
    let long_key = [0x0bu8; 80];
    let hashed = Sha1::hash(&long_key);
    assert_eq!(HMAC::mac(b"data", &long_key), HMAC::mac(b"data", &hashed));
    assert_ne!(HMAC::mac(b"data", b"key"), HMAC::mac(b"data", b"kez"));
}

#[test]
fn rotate_left_matches_std() {
    for n in 1..32 {
        assert_eq!(rotate_left_u32(0x8000_0001, n), 0x8000_0001u32.rotate_left(n));
    }
}
