use target_tester::crc::crc32;
use target_tester::protocol::TargetData;

#[test]
fn check_crc() {
    let crc = TargetData::crc32(&[0x31, 0x32, 0x33, 0x34, 0x35, 0x36, 0x37, 0x38, 0x39]);
    assert_eq!(crc, 0xCBF43926);
}

#[test]
fn crc_of_nothing_is_zero() {
    assert_eq!(crc32(&[]), 0);
}

#[test]
fn crc_of_one_zero_byte() {
    assert_eq!(crc32(&[0]), 0xD202EF8D);
}

#[test]
fn crc_of_a_classic_sentence() {
    assert_eq!(crc32(b"The quick brown fox jumps over the lazy dog"), 0x414FA339);
}
