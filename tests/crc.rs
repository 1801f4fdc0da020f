use cryptkit::crc::crc32;

#[test]
fn hello_world() {
    let input = b"Hello World!";
    let expected = 0x1c291ca3;
    assert_eq!(crc32(input), expected);
}

#[test]
fn crc32_check_value_and_empty_input() {
    // the standard check value of CRC-32
    assert_eq!(crc32(b"123456789"), 0xcbf43926);
    assert_eq!(crc32(b""), 0);
}
