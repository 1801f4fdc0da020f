use cryptkit::aes::{aes_dec_block, aes_enc_block, shift_rows, AesError, AES_128_KEY_SIZE, AES_BLOCK_SIZE};

#[test]
fn aes_ex() {
    let plaintext: [u8; AES_BLOCK_SIZE] = [
        0x00, 0x00, 0x00, 0x00, 0x00, 0x00, 0x00, 0x00, 0x00, 0x00, 0x00, 0x00, 0x00, 0x00,
        0x00, 0x00,
    ];
    let key: [u8; AES_128_KEY_SIZE] = [
        0x00, 0x11, 0x22, 0x33, 0x44, 0x55, 0x66, 0x77, 0x88, 0x99, 0xaa, 0xbb, 0xcc, 0xdd,
        0xee, 0xff,
    ];
    let expected_ciphertext: [u8; AES_BLOCK_SIZE] = [
        0xfd, 0xe4, 0xfb, 0xae, 0x4a, 0x09, 0xe0, 0x20, 0xef, 0xf7, 0x22, 0x96, 0x9f, 0x83,
        0x83, 0x2b,
    ];

    let ciphertext = aes_enc_block(&plaintext, &key).expect("Encryption failed");
    assert_eq!(ciphertext, expected_ciphertext);

    let decrypted = aes_dec_block(&ciphertext, &key).expect("Decryption failed");
    assert_eq!(decrypted, plaintext);
}

#[test]
fn aes_fips197_vectors() {
    let plaintext: [u8; 16] = [
        0x00, 0x11, 0x22, 0x33, 0x44, 0x55, 0x66, 0x77, 0x88, 0x99, 0xaa, 0xbb, 0xcc, 0xdd, 0xee, 0xff,
    ];
    let key128 = (0u8..16).collect::<Vec<u8>>();
    let key192 = (0u8..24).collect::<Vec<u8>>();
    let key256 = (0u8..32).collect::<Vec<u8>>();
    let c128 = aes_enc_block(&plaintext, &key128).unwrap();
    assert_eq!(c128, [0x69, 0xc4, 0xe0, 0xd8, 0x6a, 0x7b, 0x04, 0x30, 0xd8, 0xcd, 0xb7, 0x80, 0x70, 0xb4, 0xc5, 0x5a]);
    let c192 = aes_enc_block(&plaintext, &key192).unwrap();
    assert_eq!(c192, [0xdd, 0xa9, 0x7c, 0xa4, 0x86, 0x4c, 0xdf, 0xe0, 0x6e, 0xaf, 0x70, 0xa0, 0xec, 0x0d, 0x71, 0x91]);
    let c256 = aes_enc_block(&plaintext, &key256).unwrap();
    assert_eq!(c256, [0x8e, 0xa2, 0xb7, 0xca, 0x51, 0x67, 0x45, 0xbf, 0xea, 0xfc, 0x49, 0x90, 0x4b, 0x49, 0x60, 0x89]);
    assert_eq!(aes_dec_block(&c192, &key192).unwrap(), plaintext);
    assert_eq!(aes_dec_block(&c256, &key256).unwrap(), plaintext);
}

#[test]
fn aes_rejects_bad_key_lengths() {
    let block = [0u8; 16];
    assert_eq!(aes_enc_block(&block, &[0u8; 15]), Err(AesError::InvalidKeyLength(15)));
    assert_eq!(aes_dec_block(&block, &[0u8; 33]), Err(AesError::InvalidKeyLength(33)));
    assert!(AesError::InvalidKeyLength(0).as_str().contains("16, 24, or 32"));
}

#[test]
fn aes_shift_rows_rotates_each_row() {
    let mut state = [[0, 1, 2, 3], [4, 5, 6, 7], [8, 9, 10, 11], [12, 13, 14, 15]];
    shift_rows(&mut state);
    assert_eq!(state, [[0, 1, 2, 3], [5, 6, 7, 4], [10, 11, 8, 9], [15, 12, 13, 14]]);
}
