//! The status record that the target keeps in its memory, and its decoding.

use crate::crc::checksum;
use crate::crc::crc32;
use crate::crc::lemma_byte_change_detected;
use crate::connection::Connection;
use crate::error::ProtocolError;
use crate::error::RunnerError;
use crate::wire::read_word;
use crate::wire::word_at;
use vstd::prelude::*;

verus! {

/// Length of the status record: six 32-bit words.
pub const RECORD_LEN: usize = 24;

/// Length of the part of the record that its checksum covers.
pub const PAYLOAD_LEN: usize = 20;

/// The state word of a target that has nothing to do. Each state has a word
/// that memory is unlikely to hold by chance.
pub const STATE_IDLE: u32 = 0x8C3F_82FA;

/// The state word of a target that waits to be told which test to run.
pub const STATE_READY: u32 = 0xD79A_2E5F;

/// The state word of a target that runs a test.
pub const STATE_STARTED: u32 = 0xCD83_3CB7;

/// The state word of a target whose test has passed.
pub const STATE_PASSED: u32 = 0xBAF2_C481;

/// The state word of a target whose test has failed.
pub const STATE_FAILED: u32 = 0xCA83_D14E;

/// What the test runtime on the target is doing.
#[derive(Clone, Copy, Debug, PartialEq, Eq)]
pub enum TargetState {
    Idle,
    Ready,
    Started,
    Passed,
    Failed,
}

/// The kind of assertion that failed.
#[derive(Clone, Copy, Debug, PartialEq, Eq)]
pub enum TargetAssertion {
    Equal,
    True,
    False,
    Other(u32),
}

/// The words of a status record, decoded. The path of the source file is still
/// an address in target memory.
#[derive(Clone, Copy, Debug, PartialEq, Eq)]
pub struct Record {
    pub state: Option<TargetState>,
    pub executed_function: Option<u32>,
    pub fail_reason: Option<TargetAssertion>,
    pub file_path_ptr: Option<u32>,
    pub lineno: Option<u32>,
}

/// One reading of the target's status.
#[derive(Debug, PartialEq, Eq)]
pub struct TargetData {
    pub state: Option<TargetState>,
    pub executed_function: Option<u32>,
    pub fail_reason: Option<TargetAssertion>,
    pub file_path: Option<String>,
    pub lineno: Option<u32>,
}

/// A `TargetData` with the file path as a sequence of characters.
pub struct TargetDataView {
    pub state: Option<TargetState>,
    pub executed_function: Option<u32>,
    pub fail_reason: Option<TargetAssertion>,
    pub file_path: Option<Seq<char>>,
    pub lineno: Option<u32>,
}

/// A text, if there is one, as a sequence of characters.
pub open spec fn text_view(text: Option<String>) -> Option<Seq<char>> {
    match text {
        Some(s) => Some(s@),
        None => None,
    }
}

impl View for TargetData {
    type V = TargetDataView;

    open spec fn view(&self) -> TargetDataView {
        TargetDataView {
            state: self.state,
            executed_function: self.executed_function,
            fail_reason: self.fail_reason,
            file_path: text_view(self.file_path),
            lineno: self.lineno,
        }
    }
}

fn clone_text(text: &Option<String>) -> (copy: Option<String>)
    ensures
        text_view(copy) == text_view(*text),
{
    match text {
        Some(s) => Some(s.clone()),
        None => None,
    }
}

impl Clone for TargetData {
    fn clone(&self) -> (copy: TargetData)
        ensures
            copy@ == self@,
    {
        TargetData {
            state: self.state,
            executed_function: self.executed_function,
            fail_reason: self.fail_reason,
            file_path: clone_text(&self.file_path),
            lineno: self.lineno,
        }
    }
}

/// Whether `word` is a value that the state word may hold: zero while the
/// state is not set, or one of the five magic constants.
pub open spec fn valid_state_word(word: u32) -> bool {
    word == 0 || state_of(word) is Some
}

/// The state that `word` encodes, if any.
pub open spec fn state_of(word: u32) -> Option<TargetState> {
    if word == STATE_IDLE {
        Some(TargetState::Idle)
    } else if word == STATE_READY {
        Some(TargetState::Ready)
    } else if word == STATE_STARTED {
        Some(TargetState::Started)
    } else if word == STATE_PASSED {
        Some(TargetState::Passed)
    } else if word == STATE_FAILED {
        Some(TargetState::Failed)
    } else {
        None
    }
}

/// The failed assertion that `word` encodes; zero encodes none.
pub open spec fn assertion_of(word: u32) -> Option<TargetAssertion> {
    if word == 0 {
        None
    } else if word == 1 {
        Some(TargetAssertion::Equal)
    } else if word == 2 {
        Some(TargetAssertion::True)
    } else if word == 3 {
        Some(TargetAssertion::False)
    } else {
        Some(TargetAssertion::Other(word))
    }
}

/// A word in which zero stands for "not set".
pub open spec fn nonzero(word: u32) -> Option<u32> {
    if word == 0 {
        None
    } else {
        Some(word)
    }
}

/// Whether the checksum word of a record of the right length is set. The
/// target's memory reads as zeros until the runtime has written its first
/// record.
pub open spec fn populated(bytes: Seq<u8>) -> bool
    recommends
        bytes.len() == RECORD_LEN,
{
    word_at(bytes, 5) != 0
}

/// The decoding of a status record: its length is checked first, then its
/// checksum, then its state word.
pub open spec fn parse_record(bytes: Seq<u8>) -> Result<Record, ProtocolError> {
    if bytes.len() != RECORD_LEN {
        Err(ProtocolError::BadLength)
    } else if word_at(bytes, 5) != checksum(bytes.subrange(0, PAYLOAD_LEN as int)) {
        Err(ProtocolError::InvalidCrc)
    } else if !valid_state_word(word_at(bytes, 0)) {
        Err(ProtocolError::InvalidState(word_at(bytes, 0)))
    } else {
        Ok(
            Record {
                state: state_of(word_at(bytes, 0)),
                executed_function: nonzero(word_at(bytes, 1)),
                fail_reason: assertion_of(word_at(bytes, 2)),
                file_path_ptr: nonzero(word_at(bytes, 3)),
                lineno: nonzero(word_at(bytes, 4)),
            },
        )
    }
}

fn decode_nonzero(word: u32) -> (value: Option<u32>)
    ensures
        value == nonzero(word),
{
    if word != 0 {
        Some(word)
    } else {
        None
    }
}

fn decode_assertion(word: u32) -> (assertion: Option<TargetAssertion>)
    ensures
        assertion == assertion_of(word),
{
    match word {
        0 => None,
        1 => Some(TargetAssertion::Equal),
        2 => Some(TargetAssertion::True),
        3 => Some(TargetAssertion::False),
        code => Some(TargetAssertion::Other(code)),
    }
}

fn decode_state(word: u32) -> (state: Result<Option<TargetState>, ProtocolError>)
    ensures
        valid_state_word(word) ==> state == Ok::<Option<TargetState>, ProtocolError>(
            state_of(word),
        ),
        !valid_state_word(word) ==> state == Err::<Option<TargetState>, ProtocolError>(
            ProtocolError::InvalidState(word),
        ),
{
    if word == 0 {
        Ok(None)
    } else if word == STATE_IDLE {
        Ok(Some(TargetState::Idle))
    } else if word == STATE_READY {
        Ok(Some(TargetState::Ready))
    } else if word == STATE_STARTED {
        Ok(Some(TargetState::Started))
    } else if word == STATE_PASSED {
        Ok(Some(TargetState::Passed))
    } else if word == STATE_FAILED {
        Ok(Some(TargetState::Failed))
    } else {
        Err(ProtocolError::InvalidState(word))
    }
}

impl Record {
    /// Decodes the six words of a status record read from the target.
    pub fn parse(data: &[u8]) -> (record: Result<Record, ProtocolError>)
        ensures
            record == parse_record(data@),
    {
        if data.len() != RECORD_LEN {
            return Err(ProtocolError::BadLength);
        }
        let expected: u32 = crc32(&data[0..PAYLOAD_LEN]);
        let stored: u32 = read_word(data, 5);
        if stored != expected {
            return Err(ProtocolError::InvalidCrc);
        }
        let fail_reason = decode_assertion(read_word(data, 2));
        let state = match decode_state(read_word(data, 0)) {
            Ok(state) => state,
            Err(e) => {
                return Err(e);
            },
        };
        Ok(
            Record {
                state,
                executed_function: decode_nonzero(read_word(data, 1)),
                fail_reason,
                file_path_ptr: decode_nonzero(read_word(data, 3)),
                lineno: decode_nonzero(read_word(data, 4)),
            },
        )
    }

    /// Whether the checksum word of a record just read is set.
    pub fn is_populated(data: &[u8]) -> (set: bool)
        requires
            data@.len() == RECORD_LEN,
        ensures
            set == populated(data@),
    {
        read_word(data, 5) != 0
    }
}

impl TargetData {
    /// The CRC-32 checksum that protects a status record.
    pub fn crc32(data: &[u8]) -> (sum: u32)
        ensures
            sum == checksum(data@),
    {
        crc32(data)
    }

    /// Takes a snapshot of the target's status: reads the record at `addr`,
    /// decodes it, and reads the file path where the record points to one.
    ///
    /// What is read is up to the connection. A snapshot is made only of bytes
    /// that decode; a failure to decode is reported as it is, and a failure
    /// of the connection with the connection's text.
    pub fn fetch<C: Connection>(connection: &mut C, addr: u32) -> (data: Result<
        TargetData,
        RunnerError,
    >)
        ensures
            match data {
                Ok(snapshot) => snapshot_of_some_record(snapshot@),
                Err(RunnerError::Protocol(e)) => failure_of_some_record(e),
                Err(RunnerError::Transport(_)) => true,
                Err(_) => false,
            },
    {
        let data = match connection.read_ram(addr, RECORD_LEN) {
            Ok(data) => data,
            Err(text) => {
                return Err(RunnerError::Transport(text));
            },
        };
        let record = match Record::parse(data.as_slice()) {
            Ok(record) => record,
            Err(e) => {
                assert(fails_with(data@, e));
                return Err(RunnerError::Protocol(e));
            },
        };
        let file_path = match record.file_path_ptr {
            Some(ptr) => match connection.read_utf8_string(ptr) {
                Ok(path) => Some(path),
                Err(text) => {
                    return Err(RunnerError::Transport(text));
                },
            },
            None => None,
        };
        let snapshot = TargetData::assemble(record, file_path);
        assert(made_of(snapshot@, data@, text_view(file_path)));
        Ok(snapshot)
    }

    /// Completes a decoded record with the file path read from the target.
    pub fn assemble(record: Record, file_path: Option<String>) -> (data: TargetData)
        ensures
            data@ == assembled(record, text_view(file_path)),
    {
        TargetData {
            state: record.state,
            executed_function: record.executed_function,
            fail_reason: record.fail_reason,
            file_path,
            lineno: record.lineno,
        }
    }
}

/// Whether `snapshot` is made of the record `bytes` and the text `path`:
/// the record decodes, it points to a file path exactly if there is a text,
/// and the snapshot holds what they say.
pub open spec fn made_of(
    snapshot: TargetDataView,
    bytes: Seq<u8>,
    path: Option<Seq<char>>,
) -> bool {
    &&& parse_record(bytes) is Ok
    &&& path is Some <==> parse_record(bytes)->Ok_0.file_path_ptr is Some
    &&& snapshot == assembled(parse_record(bytes)->Ok_0, path)
}

/// Whether there are a record and a text of which `snapshot` is made.
pub open spec fn snapshot_of_some_record(snapshot: TargetDataView) -> bool {
    exists|bytes: Seq<u8>, path: Option<Seq<char>>| made_of(snapshot, bytes, path)
}

/// Whether the decoding of the record `bytes` fails with `error`.
pub open spec fn fails_with(bytes: Seq<u8>, error: ProtocolError) -> bool {
    parse_record(bytes) == Err::<Record, ProtocolError>(error)
}

/// Whether there is a record whose decoding fails with `error`.
pub open spec fn failure_of_some_record(error: ProtocolError) -> bool {
    exists|bytes: Seq<u8>| fails_with(bytes, error)
}

/// The snapshot made of a decoded record and the text found at its path
/// address.
pub open spec fn assembled(record: Record, file_path: Option<Seq<char>>) -> TargetDataView {
    TargetDataView {
        state: record.state,
        executed_function: record.executed_function,
        fail_reason: record.fail_reason,
        file_path,
        lineno: record.lineno,
    }
}

/// Whether a record has the right length and the checksum that its payload
/// asks for.
pub open spec fn intact(bytes: Seq<u8>) -> bool {
    bytes.len() == RECORD_LEN && word_at(bytes, 5) == checksum(
        bytes.subrange(0, PAYLOAD_LEN as int),
    )
}

/// A record is intact exactly where its decoding fails neither for its
/// length nor for its checksum.
pub proof fn lemma_intact(bytes: Seq<u8>)
    ensures
        intact(bytes) <==> parse_record(bytes) != Err::<Record, ProtocolError>(
            ProtocolError::BadLength,
        ) && parse_record(bytes) != Err::<Record, ProtocolError>(ProtocolError::InvalidCrc),
{
}

/// An intact record in which one byte of the payload is changed, and the
/// checksum word is left as it was, is refused for its checksum.
pub proof fn lemma_damage_detected(bytes: Seq<u8>, at: int, byte: u8)
    requires
        intact(bytes),
        0 <= at < PAYLOAD_LEN,
        byte != bytes[at],
    ensures
        parse_record(bytes.update(at, byte)) == Err::<Record, ProtocolError>(
            ProtocolError::InvalidCrc,
        ),
{
    let damaged = bytes.update(at, byte);
    let payload = bytes.subrange(0, PAYLOAD_LEN as int);
    assert(damaged.subrange(0, PAYLOAD_LEN as int) =~= payload.update(at, byte));
    assert(damaged.subrange(20, 24) =~= bytes.subrange(20, 24));
    lemma_byte_change_detected(payload, at, byte);
}

} // verus!
