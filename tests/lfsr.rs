use cryptkit::lfsr::Lfsr;
use std::iter;

#[test]
fn lfsr_naive() {
    let mut lfsr64_naive = Lfsr::new(1);
    let buf = iter::repeat_with(|| lfsr64_naive.next(64))
        .take(8)
        .collect::<Vec<_>>();
    assert_eq!(
        buf,
        &[
            0x0000000000000001,
            0x000000000000001b,
            0x0000000000000145,
            0x0000000000001db7,
            0x0000000000011011,
            0x00000000001ab1ab,
            0x0000000001514515,
            0x000000001c6db6c7
        ]
    );
    let buf = iter::repeat_with(|| lfsr64_naive.prev(64))
        .take(8)
        .collect::<Vec<_>>();
    assert_eq!(
        buf,
        &[
            0x000000001c6db6c7,
            0x0000000001514515,
            0x00000000001ab1ab,
            0x0000000000011011,
            0x0000000000001db7,
            0x0000000000000145,
            0x000000000000001b,
            0x0000000000000001
        ]
    );
}

#[test]
fn lfsr_zero_seed_becomes_one() {
    assert_eq!(Lfsr::new(0), Lfsr(1));
    assert_eq!(Lfsr::new(42), Lfsr(42));
}

#[test]
fn lfsr_skip_matches_next_and_backwards_undoes_it() {
    let mut a = Lfsr::new(0xdeadbeef);
    let mut b = a.clone();
    a.skip(100);
    for _ in 0..100 {
        b.next(1);
    }
    assert_eq!(a, b);
    a.skip_backwards(100);
    assert_eq!(a, Lfsr::new(0xdeadbeef));
    assert_eq!(b.next(0), 0);
}
