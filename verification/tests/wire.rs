use target_tester::wire::read_word;
use target_tester::wire::word_bytes;

#[test]
fn words_are_read_least_significant_byte_first() {
    let data = [0x78, 0x56, 0x34, 0x12, 0x01, 0x00, 0x00, 0x80];
    assert_eq!(read_word(&data, 0), 0x1234_5678);
    assert_eq!(read_word(&data, 1), 0x8000_0001);
}

#[test]
fn words_are_written_least_significant_byte_first() {
    assert_eq!(word_bytes(0x1234_5678), vec![0x78, 0x56, 0x34, 0x12]);
    assert_eq!(word_bytes(0), vec![0, 0, 0, 0]);
    assert_eq!(word_bytes(0xFFFF_FFFF), vec![0xFF, 0xFF, 0xFF, 0xFF]);
}

#[test]
fn a_written_word_reads_back() {
    for value in [0u32, 1, 0x2000, 0xBAF2_C481, 0xDEAD_BEEF, u32::MAX] {
        assert_eq!(read_word(&word_bytes(value), 0), value);
    }
}
