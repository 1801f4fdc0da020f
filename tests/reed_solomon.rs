use cryptkit::reed_solomon::{
    correct, correct_erasures, correct_errors, encode, generator_poly, is_correct, Error,
    BLOCK_SIZE, DATA_SIZE, ECC_SIZE,
};

fn encoded_block() -> Vec<u8> {
    let mut data = (0..255).collect::<Vec<u8>>();
    encode(&mut data);
    data
}

#[test]
fn reed_solomon() {
    let mut data = (0..255).collect::<Vec<u8>>();
    encode(&mut data);
    assert!(is_correct(&data));

    // correct up to k known erasures
    for i in 0..(255 - 223) {
        data[0..i].fill(b'x');
        let res = correct_erasures(&mut data, &(0..i).collect::<Vec<_>>());
        assert_eq!(res.ok(), Some(i));
        assert_eq!(&data[0..223], &(0..223).collect::<Vec<u8>>());
    }

    // correct up to k/2 unknown errors
    for i in 0..(255 - 223) / 2 {
        data[0..i].fill(b'x');
        let res = correct_errors(&mut data);
        assert_eq!(res.ok(), Some(i));
        assert_eq!(&data[0..223], &(0..223).collect::<Vec<u8>>());
    }
}

#[test]
fn reed_solomon_any() {
    let mut data = (0..255).collect::<Vec<u8>>();
    encode(&mut data);

    // try any single error
    for i in 0..255 {
        data[i] = b'\xff';
        let res = correct_errors(&mut data);
        assert_eq!(res.ok(), Some(1));
        assert_eq!(&data[0..223], &(0..223).collect::<Vec<u8>>());
    }
}

#[test]
fn reed_solomon_burst() {
    let mut data = (0..255).collect::<Vec<u8>>();
    encode(&mut data);

    // try any burst of k/2 errors
    for i in 0..255 - ((255 - 223) / 2) {
        data[i..i + ((255 - 223) / 2)].fill(b'\xff');
        let res = correct_errors(&mut data);
        assert_eq!(res.ok(), Some((255 - 223) / 2));
        assert_eq!(&data[0..223], &(0..223).collect::<Vec<u8>>());
    }
}

#[test]
fn reed_solomon_shortened() {
    let mut data = (0..40).collect::<Vec<u8>>();
    encode(&mut data);
    assert!(is_correct(&data));

    // correct up to k known erasures
    for i in 0..(40 - 8) {
        data[0..i].fill(b'x');
        let res = correct_erasures(&mut data, &(0..i).collect::<Vec<_>>());
        assert_eq!(res.ok(), Some(i));
        assert_eq!(&data[0..8], &(0..8).collect::<Vec<u8>>());
    }

    // correct up to k/2 unknown errors
    for i in 0..(40 - 8) / 2 {
        data[0..i].fill(b'x');
        let res = correct_errors(&mut data);
        assert_eq!(res.ok(), Some(i));
        assert_eq!(&data[0..8], &(0..8).collect::<Vec<u8>>());
    }
}

#[test]
fn sizes_are_consistent() {
    assert_eq!(BLOCK_SIZE, DATA_SIZE + ECC_SIZE);
    assert_eq!(BLOCK_SIZE, 255);
}

#[test]
fn generator_poly_is_monic_of_degree_ecc() {
    let g = generator_poly();
    assert_eq!(g.len(), ECC_SIZE + 1);
    assert_eq!(g[0], 1);
    // the constant term is the product of the roots g^0 .. g^31, never zero
    assert_ne!(g[ECC_SIZE], 0);
}

#[test]
fn encode_keeps_data_and_writes_parity() {
    let data = encoded_block();
    assert_eq!(&data[0..DATA_SIZE], &(0..223).collect::<Vec<u8>>()[..]);
    // parity differs from the input bytes it replaced
    assert_ne!(&data[DATA_SIZE..], &(223..=254).collect::<Vec<u8>>()[..]);
    assert!(is_correct(&data));
}

#[test]
fn round_trip_small_and_empty_data() {
    for len in [ECC_SIZE, ECC_SIZE + 1, 100, BLOCK_SIZE] {
        let mut data = (0..len).map(|i| (i * 7 + 3) as u8).collect::<Vec<u8>>();
        encode(&mut data);
        assert!(is_correct(&data));
    }
    let mut zeros = vec![0u8; ECC_SIZE];
    encode(&mut zeros);
    assert_eq!(zeros, vec![0u8; ECC_SIZE]);
}

#[test]
fn is_correct_detects_a_single_flip() {
    let mut data = encoded_block();
    data[17] ^= 1;
    assert!(!is_correct(&data));
}

#[test]
fn erasures_of_the_first_sixteen_bytes() {
    let mut data = encoded_block();
    data[0..16].fill(0);
    let res = correct_erasures(&mut data, &(0..16).collect::<Vec<_>>());
    assert_eq!(res, Ok(16));
    assert_eq!(&data[0..223], &(0..223).collect::<Vec<u8>>()[..]);
}

#[test]
fn single_unknown_flip_to_ff() {
    let clean = encoded_block();
    for i in [0usize, 1, 100, 222, 223, 254] {
        let mut data = clean.clone();
        data[i] = 0xff;
        assert_eq!(correct_errors(&mut data), Ok(1));
        assert_eq!(data, clean);
    }
}

#[test]
fn full_erasure_capacity() {
    let clean = encoded_block();
    let mut data = clean.clone();
    let positions = (100..100 + ECC_SIZE).collect::<Vec<_>>();
    for &p in &positions {
        data[p] = 0;
    }
    assert_eq!(correct_erasures(&mut data, &positions), Ok(ECC_SIZE));
    assert_eq!(data, clean);
}

#[test]
fn too_many_erasures_leave_buffer_untouched() {
    let mut data = encoded_block();
    data[3] = 0;
    let before = data.clone();
    let positions = (0..ECC_SIZE + 1).collect::<Vec<_>>();
    assert_eq!(correct_erasures(&mut data, &positions), Err(Error::TooManyErrors));
    assert_eq!(data, before);
    assert_eq!(correct(&mut data, &positions), Err(Error::TooManyErrors));
    assert_eq!(data, before);
}

#[test]
fn too_many_errors_are_reported() {
    let mut data = encoded_block();
    for i in 0..40 {
        data[i * 5] ^= 0x5a;
    }
    assert_eq!(correct_errors(&mut data), Err(Error::TooManyErrors));
    assert_eq!(Error::TooManyErrors.as_str(), "Too many errors to correct");
}

#[test]
fn clean_codeword_needs_no_correction() {
    let clean = encoded_block();
    let mut data = clean.clone();
    assert_eq!(correct_errors(&mut data), Ok(0));
    assert_eq!(correct_erasures(&mut data, &[1, 2, 3]), Ok(0));
    assert_eq!(correct(&mut data, &[4]), Ok(0));
    assert_eq!(data, clean);
}

#[test]
fn combined_errors_and_erasures() {
    let clean = encoded_block();
    let mut data = clean.clone();
    let erasures = (10..30).collect::<Vec<_>>();
    for &p in &erasures {
        data[p] = 0;
    }
    data[200] ^= 0x11;
    data[240] ^= 0x22;
    data[50] ^= 0x33;
    assert_eq!(correct(&mut data, &erasures), Ok(23));
    assert_eq!(data, clean);
}

#[test]
fn combined_without_erasures_corrects_errors() {
    let clean = encoded_block();
    let mut data = clean.clone();
    for i in 0..16 {
        data[i * 13] ^= 0x80;
    }
    assert_eq!(correct(&mut data, &[]), Ok(16));
    assert_eq!(data, clean);
}

#[test]
fn shortened_block_of_forty() {
    let mut clean = (0..40).collect::<Vec<u8>>();
    encode(&mut clean);
    let mut data = clean.clone();
    data[5] = 0;
    data[30] = 0;
    assert_eq!(correct_erasures(&mut data, &[5, 30]), Ok(2));
    assert_eq!(data, clean);
    data[7] ^= 0xff;
    data[39] ^= 0x01;
    assert_eq!(correct_errors(&mut data), Ok(2));
    assert_eq!(data, clean);
}
