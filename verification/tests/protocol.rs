use std::time::Duration;
use target_tester::connection::c_string;
use target_tester::connection::text_from_read;
use target_tester::connection::Connection;
use target_tester::crc::crc32;
use target_tester::error::ProtocolError;
use target_tester::error::RunnerError;
use target_tester::protocol::Record;
use target_tester::protocol::TargetAssertion;
use target_tester::protocol::TargetData;
use target_tester::protocol::TargetState;
use target_tester::wire::word_bytes;

fn record_bytes(words: [u32; 5]) -> Vec<u8> {
    let mut bytes = Vec::new();
    for word in words {
        bytes.extend(word_bytes(word));
    }
    let sum = crc32(&bytes);
    bytes.extend(word_bytes(sum));
    bytes
}

#[test]
fn a_passed_record_decodes() {
    let bytes = record_bytes([0xBAF2C481, 0x1000, 0, 0, 0]);
    assert_eq!(bytes.len(), 24);
    assert_eq!(
        Record::parse(&bytes),
        Ok(Record {
            state: Some(TargetState::Passed),
            executed_function: Some(0x1000),
            fail_reason: None,
            file_path_ptr: None,
            lineno: None,
        })
    );
}

#[test]
fn a_flipped_payload_byte_is_a_crc_mismatch() {
    let bytes = record_bytes([0xBAF2C481, 0x1000, 0, 0, 0]);
    for at in 0..20 {
        for bit in 0..8 {
            let mut damaged = bytes.clone();
            damaged[at] ^= 1 << bit;
            assert_eq!(Record::parse(&damaged), Err(ProtocolError::InvalidCrc));
        }
    }
}

#[test]
fn a_changed_checksum_is_a_crc_mismatch() {
    let mut bytes = record_bytes([0xD79A2E5F, 0, 0, 0, 0]);
    bytes[23] ^= 0x80;
    assert_eq!(Record::parse(&bytes), Err(ProtocolError::InvalidCrc));
}

#[test]
fn every_state_has_its_magic_word() {
    let states = [
        (0x8C3F82FAu32, TargetState::Idle),
        (0xD79A2E5F, TargetState::Ready),
        (0xCD833CB7, TargetState::Started),
        (0xBAF2C481, TargetState::Passed),
        (0xCA83D14E, TargetState::Failed),
    ];
    for (word, state) in states {
        let record = Record::parse(&record_bytes([word, 0, 0, 0, 0])).unwrap();
        assert_eq!(record.state, Some(state));
    }
    let unset = Record::parse(&record_bytes([0, 0, 0, 0, 0])).unwrap();
    assert_eq!(unset.state, None);
}

#[test]
fn a_small_integer_is_no_state() {
    for word in [1u32, 2, 3, 4, 0xBAF2C480, 0xFFFF_FFFF] {
        assert_eq!(
            Record::parse(&record_bytes([word, 0, 0, 0, 0])),
            Err(ProtocolError::InvalidState(word))
        );
    }
}

#[test]
fn the_checksum_is_checked_before_the_state() {
    let mut bytes = record_bytes([7, 0, 0, 0, 0]);
    bytes[4] = 1;
    assert_eq!(Record::parse(&bytes), Err(ProtocolError::InvalidCrc));
}

#[test]
fn assertion_codes_decode() {
    let codes = [
        (0u32, None),
        (1, Some(TargetAssertion::Equal)),
        (2, Some(TargetAssertion::True)),
        (3, Some(TargetAssertion::False)),
        (4, Some(TargetAssertion::Other(4))),
        (0xFFFF_FFFF, Some(TargetAssertion::Other(0xFFFF_FFFF))),
    ];
    for (code, assertion) in codes {
        let record = Record::parse(&record_bytes([0xCA83D14E, 0x10, code, 0, 0])).unwrap();
        assert_eq!(record.fail_reason, assertion);
    }
}

#[test]
fn zero_words_are_unset_fields() {
    let record = Record::parse(&record_bytes([0xCA83D14E, 0x2000, 1, 0x3000, 42])).unwrap();
    assert_eq!(
        record,
        Record {
            state: Some(TargetState::Failed),
            executed_function: Some(0x2000),
            fail_reason: Some(TargetAssertion::Equal),
            file_path_ptr: Some(0x3000),
            lineno: Some(42),
        }
    );
}

#[test]
fn a_record_of_another_length_is_refused() {
    let bytes = record_bytes([0xBAF2C481, 0x1000, 0, 0, 0]);
    assert_eq!(Record::parse(&bytes[..23]), Err(ProtocolError::BadLength));
    assert_eq!(Record::parse(&[]), Err(ProtocolError::BadLength));
    let mut longer = bytes.clone();
    longer.push(0);
    assert_eq!(Record::parse(&longer), Err(ProtocolError::BadLength));
}

#[test]
fn memory_of_zeros_is_not_populated() {
    assert!(!Record::is_populated(&[0u8; 24]));
    assert!(Record::is_populated(&record_bytes([0, 0, 0, 0, 0])));
    assert_eq!(Record::parse(&[0u8; 24]), Err(ProtocolError::InvalidCrc));
}

#[test]
fn a_snapshot_is_a_record_with_its_path() {
    let record = Record::parse(&record_bytes([0xCA83D14E, 0x2000, 2, 0x3000, 7])).unwrap();
    let data = TargetData::assemble(record, Some("lib.c".to_string()));
    assert_eq!(
        data,
        TargetData {
            state: Some(TargetState::Failed),
            executed_function: Some(0x2000),
            fail_reason: Some(TargetAssertion::True),
            file_path: Some("lib.c".to_string()),
            lineno: Some(7),
        }
    );
}

#[test]
fn a_c_string_ends_at_the_first_zero() {
    assert_eq!(c_string(b"test.c\0junk\0"), Ok("test.c".to_string()));
    assert_eq!(c_string(b"\0abc"), Ok(String::new()));
    assert_eq!(c_string("gr\u{fc}n.c\0".as_bytes()), Ok("gr\u{fc}n.c".to_string()));
}

#[test]
fn a_c_string_without_a_zero_is_empty() {
    assert_eq!(c_string(b"no end"), Ok(String::new()));
    assert_eq!(c_string(&[]), Ok(String::new()));
    assert_eq!(c_string(&[0xFF, 0xFE]), Ok(String::new()));
}

#[test]
fn a_c_string_that_is_not_utf8_is_an_error() {
    assert_eq!(c_string(&[b'a', 0xFF, 0]), Err("Could not decode C string.".to_string()));
    assert_eq!(c_string(&[0xC3, 0]), Err("Could not decode C string.".to_string()));
    assert_eq!(c_string(&[0xC3, 0, 0xBC]), Err("Could not decode C string.".to_string()));
}

struct Memory {
    record: Vec<u8>,
    text: Vec<u8>,
    reads: Vec<(u32, usize)>,
    broken: bool,
}

impl Connection for Memory {
    fn read_ram(&mut self, addr: u32, length: usize) -> Result<Vec<u8>, String> {
        self.reads.push((addr, length));
        if self.broken {
            return Err("probe unplugged".to_string());
        }
        if addr == 0x2000_0000 {
            Ok(self.record.clone())
        } else {
            let mut bytes = self.text.clone();
            bytes.resize(length, 0xAA);
            Ok(bytes)
        }
    }

    fn write_ram(&mut self, _addr: u32, _data: &[u8]) -> Result<(), String> {
        Ok(())
    }

    fn halt(&mut self, _timeout: Duration) -> Result<(), String> {
        Ok(())
    }

    fn run(&mut self) -> Result<(), String> {
        Ok(())
    }

    fn reset_run(&mut self, _stack_ptr: u32, _entry_point: u32) -> Result<(), String> {
        Ok(())
    }

    fn download(&mut self, _addr: u32, _data: &[u8]) -> Result<(), String> {
        Ok(())
    }
}

fn memory(record: Vec<u8>, text: &[u8]) -> Memory {
    Memory { record, text: text.to_vec(), reads: Vec::new(), broken: false }
}

#[test]
fn a_text_is_read_in_one_transfer_of_256_bytes() {
    let mut target = memory(vec![], b"src/math.c\0");
    assert_eq!(target.read_utf8_string(0x0800_4000), Ok("src/math.c".to_string()));
    assert_eq!(target.reads, vec![(0x0800_4000, 256)]);
}

#[test]
fn a_text_that_cannot_be_read_is_the_connections_error() {
    let mut target = memory(vec![], b"");
    target.broken = true;
    assert_eq!(target.read_utf8_string(4), Err("probe unplugged".to_string()));
}

#[test]
fn fetching_reads_the_record_and_then_its_path() {
    let mut target = memory(record_bytes([0xCA83D14E, 0x2000, 1, 0x0800_4000, 42]), b"test.c\0");
    let data = TargetData::fetch(&mut target, 0x2000_0000).unwrap();
    assert_eq!(data.state, Some(TargetState::Failed));
    assert_eq!(data.executed_function, Some(0x2000));
    assert_eq!(data.fail_reason, Some(TargetAssertion::Equal));
    assert_eq!(data.file_path, Some("test.c".to_string()));
    assert_eq!(data.lineno, Some(42));
    assert_eq!(target.reads, vec![(0x2000_0000, 24), (0x0800_4000, 256)]);
}

#[test]
fn fetching_without_a_path_reads_once() {
    let mut target = memory(record_bytes([0xBAF2C481, 0x1000, 0, 0, 0]), b"");
    let data = TargetData::fetch(&mut target, 0x2000_0000).unwrap();
    assert_eq!(data.state, Some(TargetState::Passed));
    assert_eq!(data.file_path, None);
    assert_eq!(target.reads, vec![(0x2000_0000, 24)]);
}

#[test]
fn fetching_reports_what_fails() {
    let mut damaged = record_bytes([0xBAF2C481, 0x1000, 0, 0, 0]);
    damaged[0] ^= 1;
    let mut target = memory(damaged, b"");
    assert_eq!(
        TargetData::fetch(&mut target, 0x2000_0000),
        Err(RunnerError::Protocol(ProtocolError::InvalidCrc))
    );
    let mut short = memory(vec![0; 8], b"");
    assert_eq!(
        TargetData::fetch(&mut short, 0x2000_0000),
        Err(RunnerError::Protocol(ProtocolError::BadLength))
    );
    let mut unplugged = memory(vec![], b"");
    unplugged.broken = true;
    assert_eq!(
        TargetData::fetch(&mut unplugged, 0x2000_0000),
        Err(RunnerError::Transport("probe unplugged".to_string()))
    );
    let mut garbled = memory(record_bytes([0xCA83D14E, 0x2000, 1, 0x0800_4000, 42]), &[0xFF, 0]);
    assert_eq!(
        TargetData::fetch(&mut garbled, 0x2000_0000),
        Err(RunnerError::Transport("Could not decode C string.".to_string()))
    );
}

#[test]
fn a_cloned_snapshot_is_the_same() {
    let record = Record::parse(&record_bytes([0xCA83D14E, 0x2000, 2, 0x3000, 7])).unwrap();
    let with_path = TargetData::assemble(record, Some("lib.c".to_string()));
    assert_eq!(with_path.clone(), with_path);
    let without = TargetData::assemble(record, None);
    assert_eq!(without.clone(), without);
    assert_ne!(with_path, without);
}

#[test]
fn a_reading_makes_a_text_or_hands_its_failure_on() {
    assert_eq!(text_from_read(Ok(b"src/math.c\0rest".to_vec())), Ok("src/math.c".to_string()));
    assert_eq!(text_from_read(Ok(b"no end".to_vec())), Ok(String::new()));
    assert_eq!(
        text_from_read(Ok(vec![0xFF, 0])),
        Err("Could not decode C string.".to_string())
    );
    assert_eq!(
        text_from_read(Err("probe unplugged".to_string())),
        Err("probe unplugged".to_string())
    );
}
