//! What a debug probe must be able to do, and the reading of texts from
//! target memory.

use std::time::Duration;
use vstd::prelude::*;
use vstd::string::StringExecFns;
use vstd::utf8::decode_utf8;
use vstd::utf8::valid_utf8;

verus! {

/// How many bytes are read when a text is fetched from the target.
pub const MAX_STRLEN: usize = 256;

/// What is reported for a text that is not UTF-8.
pub const DECODE_ERROR: &'static str = "Could not decode C string.";

/// The position of the first zero byte of `bytes`, or their number where none
/// of them is zero.
pub open spec fn first_zero(bytes: Seq<u8>) -> int
    decreases bytes.len(),
{
    if bytes.len() == 0 || bytes[0] == 0 {
        0
    } else {
        1 + first_zero(bytes.skip(1))
    }
}

/// The text that a zero-terminated string in `bytes` holds: what precedes the
/// first zero byte, decoded as UTF-8. Without a zero byte the text is empty.
/// There is no text where those bytes are not UTF-8.
pub open spec fn c_string_text(bytes: Seq<u8>) -> Option<Seq<char>> {
    let end = first_zero(bytes);
    if end == bytes.len() {
        Some(Seq::empty())
    } else if valid_utf8(bytes.take(end)) {
        Some(decode_utf8(bytes.take(end)))
    } else {
        None
    }
}

/// `first_zero` is the one position that holds a zero byte, or the end, and
/// has no zero byte before it.
pub proof fn lemma_first_zero(bytes: Seq<u8>, pos: int)
    requires
        0 <= pos <= bytes.len(),
        forall|j: int| 0 <= j < pos ==> bytes[j] != 0,
        pos < bytes.len() ==> bytes[pos] == 0,
    ensures
        first_zero(bytes) == pos,
    decreases bytes.len(),
{
    if pos > 0 {
        assert(bytes[0] != 0);
        let rest = bytes.skip(1);
        assert forall|j: int| 0 <= j < pos - 1 implies rest[j] != 0 by {
            assert(rest[j] == bytes[j + 1]);
        }
        lemma_first_zero(rest, pos - 1);
    }
}

/// Calls `String::from_utf8`, which hands the bytes back as a text where
/// they are valid UTF-8 and refuses them where they are not.
#[verifier::external_body]
fn utf8_text(bytes: Vec<u8>) -> (text: Option<String>)
    ensures
        text is Some <==> valid_utf8(bytes@),
        text matches Some(s) ==> s@ == decode_utf8(bytes@),
{
    String::from_utf8(bytes).ok()
}

/// Decodes the zero-terminated text at the start of `data`.
pub fn c_string(data: &[u8]) -> (text: Result<String, String>)
    ensures
        match c_string_text(data@) {
            Some(chars) => text matches Ok(s) && s@ == chars,
            None => text matches Err(e) && e@ == DECODE_ERROR@,
        },
{
    let mut pos: usize = 0;
    while pos < data.len() && data[pos] != 0
        invariant
            pos <= data@.len(),
            forall|j: int| 0 <= j < pos ==> data@[j] != 0,
        decreases data@.len() - pos,
    {
        pos = pos + 1;
    }
    proof {
        lemma_first_zero(data@, pos as int);
    }
    if pos == data.len() {
        return Ok(String::new());
    }
    let mut head: Vec<u8> = Vec::new();
    let mut i: usize = 0;
    while i < pos
        invariant
            i <= pos <= data@.len(),
            head@ == data@.take(i as int),
        decreases pos - i,
    {
        head.push(data[i]);
        i = i + 1;
        assert(head@ =~= data@.take(i as int));
    }
    match utf8_text(head) {
        Some(text) => Ok(text),
        None => Err(String::from_str(DECODE_ERROR)),
    }
}

/// The operations of a debug probe on the target. Each may fail with a text
/// of the backend's own, which ends the operation that asked for it.
pub trait Connection {
    /// Reads `length` bytes of target memory from `addr` on.
    fn read_ram(&mut self, addr: u32, length: usize) -> Result<Vec<u8>, String>;

    /// Writes `data` to target memory from `addr` on.
    fn write_ram(&mut self, addr: u32, data: &[u8]) -> Result<(), String>;

    /// Stops the target; it has stopped when this returns without an error.
    fn halt(&mut self, timeout: Duration) -> Result<(), String>;

    /// Lets the target go on.
    fn run(&mut self) -> Result<(), String>;

    /// Stops the target, sets its stack pointer and its program counter, and
    /// lets it go on from there.
    fn reset_run(&mut self, stack_ptr: u32, entry_point: u32) -> Result<(), String>;

    /// Makes target memory from `addr` on equal to `data`.
    fn download(&mut self, addr: u32, data: &[u8]) -> Result<(), String>;

    /// Reads the zero-terminated text at `addr`: `MAX_STRLEN` bytes are read,
    /// and `text_from_read` says what comes of the reading. What is read is
    /// up to the connection; the text is what `text_of_read` makes of it.
    fn read_utf8_string(&mut self, addr: u32) -> (text: Result<String, String>)
        ensures
            exists|read: Result<Seq<u8>, Seq<char>>|
                text_outcome(text) == #[trigger] text_of_read(read),
    {
        let read = self.read_ram(addr, MAX_STRLEN);
        let text = text_from_read(read);
        assert(text_outcome(text) == text_of_read(read_outcome(read)));
        text
    }
}

/// What was read, or the text of the failure, as sequences.
pub open spec fn read_outcome(read: Result<Vec<u8>, String>) -> Result<Seq<u8>, Seq<char>> {
    match read {
        Ok(bytes) => Ok(bytes@),
        Err(text) => Err(text@),
    }
}

/// A text, or the text of the failure, as sequences of characters.
pub open spec fn text_outcome(text: Result<String, String>) -> Result<Seq<char>, Seq<char>> {
    match text {
        Ok(s) => Ok(s@),
        Err(e) => Err(e@),
    }
}

/// The text that a reading of target memory gives: the zero-terminated text
/// at the start of the bytes that were read, the decoding error where those
/// bytes hold no text, and the failure of the reading where nothing was read.
pub open spec fn text_of_read(read: Result<Seq<u8>, Seq<char>>) -> Result<Seq<char>, Seq<char>> {
    match read {
        Ok(bytes) => match c_string_text(bytes) {
            Some(chars) => Ok(chars),
            None => Err(DECODE_ERROR@),
        },
        Err(text) => Err(text),
    }
}

/// Makes a text of what a reading of target memory gave.
pub fn text_from_read(read: Result<Vec<u8>, String>) -> (text: Result<String, String>)
    ensures
        text_outcome(text) == text_of_read(read_outcome(read)),
{
    match read {
        Ok(data) => c_string(data.as_slice()),
        Err(e) => Err(e),
    }
}

} // verus!
