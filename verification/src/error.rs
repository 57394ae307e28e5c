//! The ways in which preparing an image or running a test can fail.

use crate::text::decimal;
use crate::text::push_decimal;
use crate::text::push_upper_hex;
use crate::text::upper_hex;
use vstd::prelude::*;
use vstd::string::StringExecFns;

verus! {

/// The symbols that the test runtime must export.
#[derive(Clone, Copy, Debug, PartialEq, Eq)]
pub enum MandatorySymbol {
    /// The slot into which the host writes the address of the test to run.
    FunToRun,
    /// The status record that the target fills in.
    TestData,
}

/// The image cannot be used.
#[derive(Clone, Copy, Debug, PartialEq, Eq)]
pub enum ImageError {
    /// No program header contributes bytes to load.
    NoLoadableSegment,
    /// The vector table does not lie within the merged image.
    VectorTableOutOfRange,
    /// The test runtime was not linked in.
    MissingSymbol(MandatorySymbol),
}

/// Host and target disagree, or the status record is damaged.
#[derive(Clone, Copy, Debug, PartialEq, Eq)]
pub enum ProtocolError {
    /// A status record was read with a length other than the record's.
    BadLength,
    /// The record's checksum does not match its contents.
    InvalidCrc,
    /// The state word holds a value that encodes no state.
    InvalidState(u32),
    /// The target ran a test other than the one asked for.
    WrongFunction { expected: u32, executed: u32 },
    /// The target finished without naming the test it ran.
    NoFunction { expected: u32 },
    /// The driver reported an event that does not answer the pending action.
    OutOfStep,
}

/// A wait ran past its deadline.
#[derive(Clone, Copy, Debug, PartialEq, Eq)]
pub enum TimeoutError {
    /// The target never reported that it is ready.
    Ready,
    /// The test never reported that it is done.
    Done,
}

/// Any failure of a test session. Each is fatal to the operation in which it
/// occurs.
#[derive(Debug, PartialEq, Eq)]
pub enum RunnerError {
    Image(ImageError),
    /// The debug link failed; the text is the backend's own.
    Transport(String),
    Protocol(ProtocolError),
    Timeout(TimeoutError),
}

/// A `RunnerError` with the backend's text as a sequence of characters.
pub enum RunnerErrorView {
    Image(ImageError),
    Transport(Seq<char>),
    Protocol(ProtocolError),
    Timeout(TimeoutError),
}

impl View for RunnerError {
    type V = RunnerErrorView;

    open spec fn view(&self) -> RunnerErrorView {
        match *self {
            RunnerError::Image(e) => RunnerErrorView::Image(e),
            RunnerError::Transport(text) => RunnerErrorView::Transport(text@),
            RunnerError::Protocol(e) => RunnerErrorView::Protocol(e),
            RunnerError::Timeout(e) => RunnerErrorView::Timeout(e),
        }
    }
}

impl Clone for RunnerError {
    fn clone(&self) -> (copy: RunnerError)
        ensures
            copy@ == self@,
    {
        match self {
            RunnerError::Image(e) => RunnerError::Image(*e),
            RunnerError::Transport(text) => RunnerError::Transport(text.clone()),
            RunnerError::Protocol(e) => RunnerError::Protocol(*e),
            RunnerError::Timeout(e) => RunnerError::Timeout(*e),
        }
    }
}

/// The symbol of the slot that takes the address of the test to run.
pub const FUN_TO_RUN_SYMBOL: &'static str = "target_test_fun_to_run";

/// The symbol of the status record.
pub const TEST_DATA_SYMBOL: &'static str = "target_test_data";

impl MandatorySymbol {
    /// The name under which the symbol is linked.
    pub open spec fn text(self) -> Seq<char> {
        match self {
            MandatorySymbol::FunToRun => FUN_TO_RUN_SYMBOL@,
            MandatorySymbol::TestData => TEST_DATA_SYMBOL@,
        }
    }

    /// The name under which the symbol is linked.
    pub fn name(&self) -> (name: &'static str)
        ensures
            name@ == self.text(),
    {
        match self {
            MandatorySymbol::FunToRun => FUN_TO_RUN_SYMBOL,
            MandatorySymbol::TestData => TEST_DATA_SYMBOL,
        }
    }
}

/// What is said of an image that cannot be used.
pub open spec fn image_message(error: ImageError) -> Seq<char> {
    match error {
        ImageError::NoLoadableSegment => "Binary does not contain a loadable segment."@,
        ImageError::VectorTableOutOfRange => "Vector table not in binary."@,
        ImageError::MissingSymbol(symbol) => "Did not find test runner in binary (symbol `"@
            + symbol.text() + "` missing). Did you link it?"@,
    }
}

/// What is said of a breach of the protocol. Addresses are written in
/// hexadecimal, the state word in decimal.
pub open spec fn protocol_message(error: ProtocolError) -> Seq<char> {
    match error {
        ProtocolError::BadLength => "Connection failed to read from RAM: Invalid length"@,
        ProtocolError::InvalidCrc => "Connection failed to read from RAM: Invalid CRC"@,
        ProtocolError::InvalidState(word) => "Invalid data on target: State was: "@ + decimal(
            word as nat,
        ),
        ProtocolError::WrongFunction { expected, executed } =>
            "Test framework executed wrong test function. Expected function @"@ + upper_hex(
            expected as nat,
        ) + " but executed @"@ + upper_hex(executed as nat),
        ProtocolError::NoFunction { expected } =>
            "Test framework did not execute a test function. Expected function @"@ + upper_hex(
            expected as nat,
        ),
        ProtocolError::OutOfStep => "Test driver reported an event out of step"@,
    }
}

/// What is said of a wait that ran past its deadline.
pub open spec fn timeout_message(error: TimeoutError) -> Seq<char> {
    match error {
        TimeoutError::Ready => "Timeout while waiting for test suite to start up"@,
        TimeoutError::Done => "Timeout while waiting for test to finish"@,
    }
}

/// What is said of a failure. A failure of the debug link is reported in the
/// backend's own words.
pub open spec fn message_text(error: RunnerErrorView) -> Seq<char> {
    match error {
        RunnerErrorView::Image(e) => image_message(e),
        RunnerErrorView::Transport(text) => text,
        RunnerErrorView::Protocol(e) => protocol_message(e),
        RunnerErrorView::Timeout(e) => timeout_message(e),
    }
}

impl ImageError {
    /// The error in words.
    pub fn message(&self) -> (text: String)
        ensures
            text@ == image_message(*self),
    {
        match self {
            ImageError::NoLoadableSegment => String::from_str(
                "Binary does not contain a loadable segment.",
            ),
            ImageError::VectorTableOutOfRange => String::from_str("Vector table not in binary."),
            ImageError::MissingSymbol(symbol) => {
                let mut text = String::from_str("Did not find test runner in binary (symbol `");
                text.append(symbol.name());
                text.append("` missing). Did you link it?");
                text
            },
        }
    }
}

impl ProtocolError {
    /// The error in words.
    pub fn message(&self) -> (text: String)
        ensures
            text@ == protocol_message(*self),
    {
        match self {
            ProtocolError::BadLength => String::from_str(
                "Connection failed to read from RAM: Invalid length",
            ),
            ProtocolError::InvalidCrc => String::from_str(
                "Connection failed to read from RAM: Invalid CRC",
            ),
            ProtocolError::InvalidState(word) => {
                let mut text = String::from_str("Invalid data on target: State was: ");
                push_decimal(&mut text, *word as u64);
                text
            },
            ProtocolError::WrongFunction { expected, executed } => {
                let mut text = String::from_str(
                    "Test framework executed wrong test function. Expected function @",
                );
                push_upper_hex(&mut text, *expected as u64);
                text.append(" but executed @");
                push_upper_hex(&mut text, *executed as u64);
                text
            },
            ProtocolError::NoFunction { expected } => {
                let mut text = String::from_str(
                    "Test framework did not execute a test function. Expected function @",
                );
                push_upper_hex(&mut text, *expected as u64);
                text
            },
            ProtocolError::OutOfStep => String::from_str(
                "Test driver reported an event out of step",
            ),
        }
    }
}

impl TimeoutError {
    /// The error in words.
    pub fn message(&self) -> (text: String)
        ensures
            text@ == timeout_message(*self),
    {
        match self {
            TimeoutError::Ready => String::from_str(
                "Timeout while waiting for test suite to start up",
            ),
            TimeoutError::Done => String::from_str("Timeout while waiting for test to finish"),
        }
    }
}

impl RunnerError {
    /// The error in words.
    pub fn message(&self) -> (text: String)
        ensures
            text@ == message_text(self@),
    {
        match self {
            RunnerError::Image(e) => e.message(),
            RunnerError::Transport(text) => text.clone(),
            RunnerError::Protocol(e) => e.message(),
            RunnerError::Timeout(e) => e.message(),
        }
    }
}

} // verus!
