//! The test session: what is known of the image, and the steps that run one
//! test on the target.
//!
//! Talking to the target and waiting are left to a driver. The driver performs
//! one `Action` at a time and reports what came of it as an `Event`, together
//! with the reading of a clock that never runs backwards; `TestRun::step`
//! decides what to do next.

use crate::discovery::enumerate_tests;
use crate::discovery::located;
use crate::discovery::retrieve_symbol;
use crate::discovery::test_views;
use crate::discovery::tests_of;
use crate::discovery::TestCase;
use crate::discovery::TestCaseView;
use crate::error::ImageError;
use crate::error::MandatorySymbol;
use crate::error::ProtocolError;
use crate::error::RunnerError;
use crate::error::RunnerErrorView;
use crate::error::TimeoutError;
use crate::image::extract;
use crate::image::merged;
use crate::image::spans;
use crate::image::symbol_views;
use crate::image::vector_table;
use crate::image::LoadSegment;
use crate::image::ProgramHeader;
use crate::image::SegmentView;
use crate::image::SymbolView;
use crate::image::TestBinary;
use crate::protocol::assembled;
use crate::protocol::parse_record;
use crate::protocol::populated;
use crate::protocol::text_view;
use crate::protocol::Record;
use crate::protocol::TargetAssertion;
use crate::protocol::TargetData;
use crate::protocol::TargetDataView;
use crate::protocol::TargetState;
use crate::protocol::RECORD_LEN;
use crate::wire::le_bytes;
use crate::wire::word_bytes;
use std::time::SystemTime;
use vstd::prelude::*;
use vstd::slice::slice_to_vec;

verus! {

/// `std::time::SystemTime`: a time of day, carried through as it is.
#[verifier::external_type_specification]
#[verifier::external_body]
pub struct ExSystemTime(SystemTime);

/// Where and why a test failed, as far as the target reported it.
#[derive(Debug, PartialEq, Eq)]
pub struct FailedAssert {
    pub lineno: Option<u32>,
    pub file_name: Option<String>,
    pub assertion: Option<TargetAssertion>,
}

/// A `FailedAssert` with the file name as a sequence of characters.
pub struct FailedAssertView {
    pub lineno: Option<u32>,
    pub file_name: Option<Seq<char>>,
    pub assertion: Option<TargetAssertion>,
}

impl View for FailedAssert {
    type V = FailedAssertView;

    open spec fn view(&self) -> FailedAssertView {
        FailedAssertView {
            lineno: self.lineno,
            file_name: text_view(self.file_name),
            assertion: self.assertion,
        }
    }
}

/// The outcome of one test that ran to its end. A test without an error has
/// passed.
#[derive(Debug, PartialEq, Eq)]
pub struct TestResult {
    pub case: TestCase,
    pub timestamp: SystemTime,
    pub error: Option<FailedAssert>,
}

/// What a `TestResult` says of the test; the time at which it was made is
/// left out.
pub struct TestResultView {
    pub case: TestCaseView,
    pub error: Option<FailedAssertView>,
}

impl View for TestResult {
    type V = TestResultView;

    open spec fn view(&self) -> TestResultView {
        TestResultView {
            case: self.case@,
            error: match self.error {
                Some(e) => Some(e@),
                None => None,
            },
        }
    }
}

impl Clone for FailedAssert {
    fn clone(&self) -> (copy: FailedAssert)
        ensures
            copy@ == self@,
    {
        FailedAssert {
            lineno: self.lineno,
            file_name: match &self.file_name {
                Some(name) => Some(name.clone()),
                None => None,
            },
            assertion: self.assertion,
        }
    }
}

impl Clone for TestResult {
    fn clone(&self) -> (copy: TestResult)
        ensures
            copy@ == self@,
            copy.timestamp == self.timestamp,
    {
        TestResult {
            case: self.case.clone(),
            timestamp: self.timestamp,
            error: match &self.error {
                Some(error) => Some(error.clone()),
                None => None,
            },
        }
    }
}

/// How long the session waits, in milliseconds.
#[derive(Clone, Copy, Debug, PartialEq, Eq)]
pub struct Timing {
    /// The pause before each reading of the status record.
    pub poll_interval_millis: u64,
    /// How long the target may take to report that it is ready.
    pub ready_timeout_millis: u64,
    /// How long a test may take to report that it is done.
    pub done_timeout_millis: u64,
    /// How long the target may take to halt.
    pub halt_timeout_millis: u64,
}

/// The timing of a session unless it is told otherwise.
pub open spec fn default_timing() -> Timing {
    Timing {
        poll_interval_millis: 10,
        ready_timeout_millis: 500,
        done_timeout_millis: 500,
        halt_timeout_millis: 100,
    }
}

impl Default for Timing {
    fn default() -> (timing: Timing)
        ensures
            timing == default_timing(),
    {
        Timing {
            poll_interval_millis: 10,
            ready_timeout_millis: 500,
            done_timeout_millis: 500,
            halt_timeout_millis: 100,
        }
    }
}

/// What the driver is asked to do.
#[derive(Debug, PartialEq, Eq)]
pub enum Action {
    /// Stop the target, set stack pointer and program counter, let it go on.
    ResetRun { stack_ptr: u32, entry_point: u32 },
    /// Let the given time pass.
    Sleep { millis: u64 },
    /// Read target memory.
    ReadRam { addr: u32, length: usize },
    /// Read the zero-terminated text at an address of the target.
    ReadString { addr: u32 },
    /// Stop the target.
    Halt { timeout_millis: u64 },
    /// Write target memory.
    WriteRam { addr: u32, data: Vec<u8> },
    /// Let the target go on.
    Run,
    /// Make target memory equal to the image.
    Download { addr: u32, data: Vec<u8> },
    /// Nothing more: the test has run to its end, or the run has failed.
    Finish(Result<TestResult, RunnerError>),
}

/// An `Action` with bytes and texts as sequences.
pub enum ActionView {
    ResetRun { stack_ptr: u32, entry_point: u32 },
    Sleep { millis: u64 },
    ReadRam { addr: u32, length: usize },
    ReadString { addr: u32 },
    Halt { timeout_millis: u64 },
    WriteRam { addr: u32, data: Seq<u8> },
    Run,
    Download { addr: u32, data: Seq<u8> },
    Finish(Result<TestResultView, RunnerErrorView>),
}

/// The outcome of a run with texts as sequences of characters.
pub open spec fn outcome_view(outcome: Result<TestResult, RunnerError>) -> Result<
    TestResultView,
    RunnerErrorView,
> {
    match outcome {
        Ok(result) => Ok(result@),
        Err(error) => Err(error@),
    }
}

impl View for Action {
    type V = ActionView;

    open spec fn view(&self) -> ActionView {
        match *self {
            Action::ResetRun { stack_ptr, entry_point } => ActionView::ResetRun {
                stack_ptr,
                entry_point,
            },
            Action::Sleep { millis } => ActionView::Sleep { millis },
            Action::ReadRam { addr, length } => ActionView::ReadRam { addr, length },
            Action::ReadString { addr } => ActionView::ReadString { addr },
            Action::Halt { timeout_millis } => ActionView::Halt { timeout_millis },
            Action::WriteRam { addr, data } => ActionView::WriteRam { addr, data: data@ },
            Action::Run => ActionView::Run,
            Action::Download { addr, data } => ActionView::Download { addr, data: data@ },
            Action::Finish(outcome) => ActionView::Finish(outcome_view(outcome)),
        }
    }
}

/// What came of the action that the driver performed last.
#[derive(Debug, PartialEq, Eq)]
pub enum Event {
    /// The action is done and has nothing to report.
    Done,
    /// The bytes that were read from target memory.
    Data(Vec<u8>),
    /// The text that was read from target memory.
    Text(String),
    /// The debug link failed, with the backend's text.
    Failed(String),
}

/// An `Event` with bytes and texts as sequences.
pub enum EventView {
    Done,
    Data(Seq<u8>),
    Text(Seq<char>),
    Failed(Seq<char>),
}

impl View for Event {
    type V = EventView;

    open spec fn view(&self) -> EventView {
        match *self {
            Event::Done => EventView::Done,
            Event::Data(bytes) => EventView::Data(bytes@),
            Event::Text(text) => EventView::Text(text@),
            Event::Failed(text) => EventView::Failed(text@),
        }
    }
}

/// Where a wait for the status record stands.
#[derive(Clone, Copy, Debug, PartialEq, Eq)]
pub enum Poll {
    /// The pause before the next reading.
    Sleeping,
    /// The record is being read.
    Reading,
    /// The record was decoded; the file path it points to is being read.
    ReadingPath(Record),
}

/// Where the injection of the test's address stands.
#[derive(Clone, Copy, Debug, PartialEq, Eq)]
pub enum Inject {
    /// The target is being halted.
    Halting,
    /// The address is being written.
    Writing,
}

/// Where the run of one test stands.
#[derive(Clone, Copy, Debug, PartialEq, Eq)]
pub enum Phase {
    /// The target is being started from the image's entry point.
    Resetting,
    /// The target is starting up.
    AwaitingReady(Poll),
    /// The target is told which test to run.
    Injecting(Inject),
    /// The target is being let go.
    Running,
    /// The test is running.
    AwaitingDone(Poll),
    /// The run is over.
    Decoded,
}

/// The run of one test.
#[derive(Debug)]
pub struct TestRun {
    case: TestCase,
    stack_pointer: u32,
    entry_point: u32,
    run_test_addr: u32,
    test_data_addr: u32,
    timing: Timing,
    phase: Phase,
    since: u64,
}

/// The state of a `TestRun`. `since` is the clock's reading at the start of
/// the wait that is under way.
pub struct TestRunView {
    pub case: TestCaseView,
    pub stack_pointer: u32,
    pub entry_point: u32,
    pub run_test_addr: u32,
    pub test_data_addr: u32,
    pub timing: Timing,
    pub phase: Phase,
    pub since: u64,
}

impl View for TestRun {
    type V = TestRunView;

    closed spec fn view(&self) -> TestRunView {
        TestRunView {
            case: self.case@,
            stack_pointer: self.stack_pointer,
            entry_point: self.entry_point,
            run_test_addr: self.run_test_addr,
            test_data_addr: self.test_data_addr,
            timing: self.timing,
            phase: self.phase,
            since: self.since,
        }
    }
}

/// The run of another test of the same session, before its first step.
pub open spec fn restarted(run: TestRunView, case: TestCaseView) -> TestRunView {
    TestRunView { case, phase: Phase::Resetting, since: 0, ..run }
}

/// The time that has passed between two readings of the clock.
pub open spec fn elapsed(since: u64, now: u64) -> int {
    if now >= since {
        now - since
    } else {
        0
    }
}

/// The phase of a wait: for the target to be ready, or for the test to be
/// done.
pub open spec fn polling(ready: bool, poll: Poll) -> Phase {
    if ready {
        Phase::AwaitingReady(poll)
    } else {
        Phase::AwaitingDone(poll)
    }
}

/// How long a wait may last.
pub open spec fn timeout_of(timing: Timing, ready: bool) -> u64 {
    if ready {
        timing.ready_timeout_millis
    } else {
        timing.done_timeout_millis
    }
}

/// The error of a wait that ran past its deadline.
pub open spec fn timed_out(ready: bool) -> TimeoutError {
    if ready {
        TimeoutError::Ready
    } else {
        TimeoutError::Done
    }
}

/// The run in another phase.
pub open spec fn in_phase(run: TestRunView, phase: Phase) -> TestRunView {
    TestRunView { phase, ..run }
}

/// The end of a run.
pub open spec fn finish(run: TestRunView, outcome: Result<TestResultView, RunnerErrorView>) -> (
    TestRunView,
    ActionView,
) {
    (in_phase(run, Phase::Decoded), ActionView::Finish(outcome))
}

/// The end of a run that failed.
pub open spec fn fail(run: TestRunView, error: RunnerErrorView) -> (TestRunView, ActionView) {
    finish(run, Err(error))
}

/// One more round of a wait: a pause while the deadline has not passed, the
/// timeout error once it has.
pub open spec fn keep_waiting(run: TestRunView, ready: bool, now: u64) -> (
    TestRunView,
    ActionView,
) {
    if elapsed(run.since, now) < timeout_of(run.timing, ready) {
        (
            in_phase(run, polling(ready, Poll::Sleeping)),
            ActionView::Sleep { millis: run.timing.poll_interval_millis },
        )
    } else {
        fail(run, RunnerErrorView::Timeout(timed_out(ready)))
    }
}

/// The start of a wait at the time `now`.
pub open spec fn start_waiting(run: TestRunView, ready: bool, now: u64) -> (
    TestRunView,
    ActionView,
) {
    keep_waiting(TestRunView { since: now, ..run }, ready, now)
}

/// The result of a test that reported its end with the snapshot `data`: the
/// target must name the test that was asked for; the test has passed where
/// the state says so, and has failed with what the snapshot tells otherwise.
pub open spec fn verdict(case: TestCaseView, data: TargetDataView) -> Result<
    TestResultView,
    RunnerErrorView,
> {
    match data.executed_function {
        None => Err(RunnerErrorView::Protocol(ProtocolError::NoFunction { expected: case.addr })),
        Some(executed) => if executed != case.addr {
            Err(
                RunnerErrorView::Protocol(
                    ProtocolError::WrongFunction { expected: case.addr, executed },
                ),
            )
        } else {
            Ok(
                TestResultView {
                    case,
                    error: if data.state == Some(TargetState::Passed) {
                        None
                    } else {
                        Some(
                            FailedAssertView {
                                lineno: data.lineno,
                                file_name: data.file_path,
                                assertion: data.fail_reason,
                            },
                        )
                    },
                },
            )
        },
    }
}

/// Whether a snapshot ends the wait.
pub open spec fn awaited(ready: bool, state: Option<TargetState>) -> bool {
    if ready {
        state == Some(TargetState::Ready)
    } else {
        state == Some(TargetState::Passed) || state == Some(TargetState::Failed)
    }
}

/// What follows a complete snapshot: the next step of the run where it shows
/// the state waited for, one more round of the wait where it does not.
pub open spec fn after_snapshot(run: TestRunView, ready: bool, data: TargetDataView, now: u64) -> (
    TestRunView,
    ActionView,
) {
    if !awaited(ready, data.state) {
        keep_waiting(run, ready, now)
    } else if ready {
        (
            in_phase(run, Phase::Injecting(Inject::Halting)),
            ActionView::Halt { timeout_millis: run.timing.halt_timeout_millis },
        )
    } else {
        finish(run, verdict(run.case, data))
    }
}

/// What follows a reading of the status record. While the target starts up,
/// a record whose checksum word is still zero is passed over. Any other
/// record must decode; its file path, if it has one, is read next.
pub open spec fn after_record(run: TestRunView, ready: bool, bytes: Seq<u8>, now: u64) -> (
    TestRunView,
    ActionView,
) {
    if ready && bytes.len() == RECORD_LEN && !populated(bytes) {
        keep_waiting(run, ready, now)
    } else {
        match parse_record(bytes) {
            Err(e) => fail(run, RunnerErrorView::Protocol(e)),
            Ok(record) => match record.file_path_ptr {
                Some(addr) => (
                    in_phase(run, polling(ready, Poll::ReadingPath(record))),
                    ActionView::ReadString { addr },
                ),
                None => after_snapshot(run, ready, assembled(record, None), now),
            },
        }
    }
}

/// The reading of the status record that follows a pause.
pub open spec fn read_record(run: TestRunView, ready: bool) -> (TestRunView, ActionView) {
    (
        in_phase(run, polling(ready, Poll::Reading)),
        ActionView::ReadRam { addr: run.test_data_addr, length: RECORD_LEN },
    )
}

/// What follows an action that had nothing to report.
pub open spec fn after_done(run: TestRunView, now: u64) -> (TestRunView, ActionView) {
    match run.phase {
        Phase::Resetting => start_waiting(run, true, now),
        Phase::AwaitingReady(Poll::Sleeping) => read_record(run, true),
        Phase::Injecting(Inject::Halting) => (
            in_phase(run, Phase::Injecting(Inject::Writing)),
            ActionView::WriteRam { addr: run.run_test_addr, data: le_bytes(run.case.addr) },
        ),
        Phase::Injecting(Inject::Writing) => (in_phase(run, Phase::Running), ActionView::Run),
        Phase::Running => start_waiting(run, false, now),
        Phase::AwaitingDone(Poll::Sleeping) => read_record(run, false),
        _ => fail(run, RunnerErrorView::Protocol(ProtocolError::OutOfStep)),
    }
}

/// The step of a run: the state after `event`, reported at the time `now`,
/// and the action to perform next.
///
/// A failure of the debug link ends the run. Any other event must answer the
/// action that is pending; one that does not ends the run as out of step.
pub open spec fn next(run: TestRunView, event: EventView, now: u64) -> (TestRunView, ActionView) {
    match event {
        EventView::Failed(text) => if run.phase == Phase::Decoded {
            fail(run, RunnerErrorView::Protocol(ProtocolError::OutOfStep))
        } else {
            fail(run, RunnerErrorView::Transport(text))
        },
        EventView::Done => after_done(run, now),
        EventView::Data(bytes) => match run.phase {
            Phase::AwaitingReady(Poll::Reading) => after_record(run, true, bytes, now),
            Phase::AwaitingDone(Poll::Reading) => after_record(run, false, bytes, now),
            _ => fail(run, RunnerErrorView::Protocol(ProtocolError::OutOfStep)),
        },
        EventView::Text(text) => match run.phase {
            Phase::AwaitingReady(Poll::ReadingPath(record)) => after_snapshot(
                run,
                true,
                assembled(record, Some(text)),
                now,
            ),
            Phase::AwaitingDone(Poll::ReadingPath(record)) => after_snapshot(
                run,
                false,
                assembled(record, Some(text)),
                now,
            ),
            _ => fail(run, RunnerErrorView::Protocol(ProtocolError::OutOfStep)),
        },
    }
}

/// Calls `SystemTime::now`. The time of day is whatever the system says.
#[verifier::external_body]
fn timestamp_now() -> SystemTime {
    SystemTime::now()
}

impl TestResult {
    /// Makes the result of a test that reported its end with the snapshot
    /// `data`, as `verdict` says, and stamps it with `timestamp`.
    pub fn conclude(case: &TestCase, data: TargetData, timestamp: SystemTime) -> (outcome: Result<
        TestResult,
        RunnerError,
    >)
        ensures
            outcome_view(outcome) == verdict(case@, data@),
            outcome matches Ok(result) ==> result.timestamp == timestamp,
    {
        let test_passed = matches!(data.state, Some(TargetState::Passed));
        match data.executed_function {
            Some(executed) => {
                if executed != case.addr {
                    return Err(
                        RunnerError::Protocol(
                            ProtocolError::WrongFunction { expected: case.addr, executed },
                        ),
                    );
                }
            },
            None => {
                return Err(
                    RunnerError::Protocol(ProtocolError::NoFunction { expected: case.addr }),
                );
            },
        }
        let error = if !test_passed {
            Some(
                FailedAssert {
                    lineno: data.lineno,
                    file_name: data.file_path,
                    assertion: data.fail_reason,
                },
            )
        } else {
            None
        };
        Ok(TestResult { case: case.clone(), timestamp, error })
    }
}

impl TestRun {
    /// Where the run stands.
    pub fn phase(&self) -> (phase: Phase)
        ensures
            phase == self@.phase,
    {
        self.phase
    }

    /// The test that is run.
    pub fn case(&self) -> (case: &TestCase)
        ensures
            case@ == self@.case,
    {
        &self.case
    }

    /// Begins the run of another test of the same session.
    pub fn again(&self, test_case: &TestCase) -> (start: (TestRun, Action))
        ensures
            start.0@ == restarted(self@, test_case@),
            start.1@ == (ActionView::ResetRun {
                stack_ptr: self@.stack_pointer,
                entry_point: self@.entry_point,
            }),
    {
        let run = TestRun {
            case: test_case.clone(),
            stack_pointer: self.stack_pointer,
            entry_point: self.entry_point,
            run_test_addr: self.run_test_addr,
            test_data_addr: self.test_data_addr,
            timing: self.timing,
            phase: Phase::Resetting,
            since: 0,
        };
        (run, Action::ResetRun { stack_ptr: self.stack_pointer, entry_point: self.entry_point })
    }

    fn end(&mut self, outcome: Result<TestResult, RunnerError>) -> (action: Action)
        ensures
            (final(self)@, action@) == finish(old(self)@, outcome_view(outcome)),
    {
        self.phase = Phase::Decoded;
        Action::Finish(outcome)
    }

    fn wait(&mut self, ready: bool, now_millis: u64) -> (action: Action)
        ensures
            (final(self)@, action@) == keep_waiting(old(self)@, ready, now_millis),
    {
        let passed: u64 = if now_millis >= self.since {
            now_millis - self.since
        } else {
            0
        };
        let timeout: u64 = if ready {
            self.timing.ready_timeout_millis
        } else {
            self.timing.done_timeout_millis
        };
        if passed < timeout {
            self.phase = if ready {
                Phase::AwaitingReady(Poll::Sleeping)
            } else {
                Phase::AwaitingDone(Poll::Sleeping)
            };
            Action::Sleep { millis: self.timing.poll_interval_millis }
        } else if ready {
            self.end(Err(RunnerError::Timeout(TimeoutError::Ready)))
        } else {
            self.end(Err(RunnerError::Timeout(TimeoutError::Done)))
        }
    }

    /// Decides what follows a snapshot taken while the target starts up: the
    /// injection of the test once the target is ready, one more round of the
    /// wait until then.
    fn wait_for_ready(&mut self, data: TargetData, now_millis: u64) -> (action: Action)
        ensures
            (final(self)@, action@) == after_snapshot(old(self)@, true, data@, now_millis),
    {
        if matches!(data.state, Some(TargetState::Ready)) {
            self.phase = Phase::Injecting(Inject::Halting);
            Action::Halt { timeout_millis: self.timing.halt_timeout_millis }
        } else {
            self.wait(true, now_millis)
        }
    }

    /// Decides what follows a snapshot taken while the test runs: the result
    /// once the test has passed or failed, one more round of the wait until
    /// then.
    fn wait_for_done(&mut self, data: TargetData, now_millis: u64) -> (action: Action)
        ensures
            (final(self)@, action@) == after_snapshot(old(self)@, false, data@, now_millis),
    {
        let done = match data.state {
            Some(TargetState::Passed) | Some(TargetState::Failed) => true,
            _ => false,
        };
        if done {
            let outcome = TestResult::conclude(&self.case, data, timestamp_now());
            self.end(outcome)
        } else {
            self.wait(false, now_millis)
        }
    }

    fn snapshot(&mut self, ready: bool, data: TargetData, now_millis: u64) -> (action: Action)
        ensures
            (final(self)@, action@) == after_snapshot(old(self)@, ready, data@, now_millis),
    {
        if ready {
            self.wait_for_ready(data, now_millis)
        } else {
            self.wait_for_done(data, now_millis)
        }
    }

    fn record(&mut self, ready: bool, bytes: Vec<u8>, now_millis: u64) -> (action: Action)
        ensures
            (final(self)@, action@) == after_record(old(self)@, ready, bytes@, now_millis),
    {
        let data: &[u8] = bytes.as_slice();
        if ready && data.len() == RECORD_LEN && !Record::is_populated(data) {
            return self.wait(ready, now_millis);
        }
        match Record::parse(data) {
            Err(e) => self.end(Err(RunnerError::Protocol(e))),
            Ok(record) => match record.file_path_ptr {
                Some(addr) => {
                    self.phase = if ready {
                        Phase::AwaitingReady(Poll::ReadingPath(record))
                    } else {
                        Phase::AwaitingDone(Poll::ReadingPath(record))
                    };
                    Action::ReadString { addr }
                },
                None => {
                    let data = TargetData::assemble(record, None);
                    self.snapshot(ready, data, now_millis)
                },
            },
        }
    }

    fn read(&mut self, ready: bool) -> (action: Action)
        ensures
            (final(self)@, action@) == read_record(old(self)@, ready),
    {
        self.phase = if ready {
            Phase::AwaitingReady(Poll::Reading)
        } else {
            Phase::AwaitingDone(Poll::Reading)
        };
        Action::ReadRam { addr: self.test_data_addr, length: RECORD_LEN }
    }

    fn out_of_step(&mut self) -> (action: Action)
        ensures
            (final(self)@, action@) == fail(
                old(self)@,
                RunnerErrorView::Protocol(ProtocolError::OutOfStep),
            ),
    {
        self.end(Err(RunnerError::Protocol(ProtocolError::OutOfStep)))
    }

    fn done(&mut self, now_millis: u64) -> (action: Action)
        ensures
            (final(self)@, action@) == after_done(old(self)@, now_millis),
    {
        match self.phase {
            Phase::Resetting => {
                self.since = now_millis;
                self.wait(true, now_millis)
            },
            Phase::AwaitingReady(Poll::Sleeping) => self.read(true),
            Phase::Injecting(Inject::Halting) => {
                self.phase = Phase::Injecting(Inject::Writing);
                Action::WriteRam { addr: self.run_test_addr, data: word_bytes(self.case.addr) }
            },
            Phase::Injecting(Inject::Writing) => {
                self.phase = Phase::Running;
                Action::Run
            },
            Phase::Running => {
                self.since = now_millis;
                self.wait(false, now_millis)
            },
            Phase::AwaitingDone(Poll::Sleeping) => self.read(false),
            _ => self.out_of_step(),
        }
    }

    /// Takes in what came of the pending action, reported at the clock's
    /// reading `now_millis`, and says what to do next.
    pub fn step(&mut self, event: Event, now_millis: u64) -> (action: Action)
        ensures
            (final(self)@, action@) == next(old(self)@, event@, now_millis),
    {
        match event {
            Event::Failed(text) => {
                if matches!(self.phase, Phase::Decoded) {
                    self.out_of_step()
                } else {
                    self.end(Err(RunnerError::Transport(text)))
                }
            },
            Event::Done => self.done(now_millis),
            Event::Data(bytes) => match self.phase {
                Phase::AwaitingReady(Poll::Reading) => self.record(true, bytes, now_millis),
                Phase::AwaitingDone(Poll::Reading) => self.record(false, bytes, now_millis),
                _ => self.out_of_step(),
            },
            Event::Text(text) => match self.phase {
                Phase::AwaitingReady(Poll::ReadingPath(record)) => {
                    let data = TargetData::assemble(record, Some(text));
                    self.snapshot(true, data, now_millis)
                },
                Phase::AwaitingDone(Poll::ReadingPath(record)) => {
                    let data = TargetData::assemble(record, Some(text));
                    self.snapshot(false, data, now_millis)
                },
                _ => self.out_of_step(),
            },
        }
    }
}

/// A test session: the image to download, where it starts, where the test
/// runtime keeps its data, and the tests found in the image.
#[derive(Debug)]
pub struct Runner {
    data: LoadSegment,
    stack_pointer: u32,
    entry_point: u32,
    run_test_addr: u32,
    test_data_addr: u32,
    tests: Vec<TestCase>,
    timing: Timing,
}

/// The state of a `Runner`.
pub struct RunnerView {
    pub image: SegmentView,
    pub stack_pointer: u32,
    pub entry_point: u32,
    pub run_test_addr: u32,
    pub test_data_addr: u32,
    pub tests: Seq<TestCaseView>,
    pub timing: Timing,
}

impl View for Runner {
    type V = RunnerView;

    closed spec fn view(&self) -> RunnerView {
        RunnerView {
            image: self.data@,
            stack_pointer: self.stack_pointer,
            entry_point: self.entry_point,
            run_test_addr: self.run_test_addr,
            test_data_addr: self.test_data_addr,
            tests: test_views(self.tests@),
            timing: self.timing,
        }
    }
}

/// The session over an object file with the raw bytes `file`, the program
/// headers `headers` and the symbols `symbols`, whose vector table is at
/// `vector_table_addr`. The image must have a segment to load and hold the
/// vector table, and the test runtime must be linked in; the first of these
/// that fails is the error.
pub open spec fn construct(
    file: Seq<u8>,
    headers: Seq<ProgramHeader>,
    symbols: Seq<SymbolView>,
    vector_table_addr: u32,
) -> Result<RunnerView, RunnerErrorView> {
    let segments = extract(file, headers);
    if segments.len() == 0 {
        Err(RunnerErrorView::Image(ImageError::NoLoadableSegment))
    } else {
        let image = merged(segments);
        match vector_table(image, vector_table_addr) {
            Err(e) => Err(RunnerErrorView::Image(e)),
            Ok(vectors) => match located(symbols, MandatorySymbol::FunToRun) {
                Err(e) => Err(RunnerErrorView::Image(e)),
                Ok(run_test_addr) => match located(symbols, MandatorySymbol::TestData) {
                    Err(e) => Err(RunnerErrorView::Image(e)),
                    Ok(test_data_addr) => Ok(
                        RunnerView {
                            image,
                            stack_pointer: vectors.0,
                            entry_point: vectors.1,
                            run_test_addr,
                            test_data_addr,
                            tests: tests_of(symbols),
                            timing: default_timing(),
                        },
                    ),
                },
            },
        }
    }
}

/// A session, or the error that kept it from being made, as views.
pub open spec fn session_view(session: Result<Runner, RunnerError>) -> Result<
    RunnerView,
    RunnerErrorView,
> {
    match session {
        Ok(runner) => Ok(runner@),
        Err(error) => Err(error@),
    }
}

/// The run of `case` before its first step.
pub open spec fn started(runner: RunnerView, case: TestCaseView) -> TestRunView {
    TestRunView {
        case,
        stack_pointer: runner.stack_pointer,
        entry_point: runner.entry_point,
        run_test_addr: runner.run_test_addr,
        test_data_addr: runner.test_data_addr,
        timing: runner.timing,
        phase: Phase::Resetting,
        since: 0,
    }
}

impl Runner {
    /// Prepares a session from what was read of an object file.
    pub fn new(binary: &TestBinary, vector_table_addr: u32) -> (session: Result<
        Runner,
        RunnerError,
    >)
        requires
            binary.well_formed(),
        ensures
            session_view(session) == construct(
                binary.data@,
                binary.segments@,
                symbol_views(binary.symbols@),
                vector_table_addr,
            ),
    {
        let segments_to_load = LoadSegment::get_from_file(binary);
        assert(spans(segments_to_load@).len() == segments_to_load@.len());
        let segment = match LoadSegment::collapse_segments(segments_to_load) {
            Some(segment) => segment,
            None => {
                return Err(RunnerError::Image(ImageError::NoLoadableSegment));
            },
        };
        let (stack_pointer, entry_point) = match segment.resolve_vector_table(vector_table_addr) {
            Ok(vectors) => vectors,
            Err(e) => {
                return Err(RunnerError::Image(e));
            },
        };
        let run_test_addr = match retrieve_symbol(&binary.symbols, MandatorySymbol::FunToRun) {
            Ok(addr) => addr,
            Err(e) => {
                return Err(RunnerError::Image(e));
            },
        };
        let test_data_addr = match retrieve_symbol(&binary.symbols, MandatorySymbol::TestData) {
            Ok(addr) => addr,
            Err(e) => {
                return Err(RunnerError::Image(e));
            },
        };
        Ok(
            Runner {
                data: segment,
                stack_pointer,
                entry_point,
                run_test_addr,
                tests: enumerate_tests(&binary.symbols),
                test_data_addr,
                timing: Timing::default(),
            },
        )
    }

    /// The same session with another timing.
    pub fn with_timing(self, timing: Timing) -> (runner: Runner)
        ensures
            runner@ == (RunnerView { timing, ..self@ }),
    {
        Runner {
            data: self.data,
            stack_pointer: self.stack_pointer,
            entry_point: self.entry_point,
            run_test_addr: self.run_test_addr,
            test_data_addr: self.test_data_addr,
            tests: self.tests,
            timing,
        }
    }

    /// Asks for the image to be put into target memory at its address.
    pub fn download(&self) -> (action: Action)
        ensures
            action@ == (ActionView::Download { addr: self@.image.addr, data: self@.image.data }),
    {
        Action::Download { addr: self.data.start_addr(), data: slice_to_vec(self.data.data()) }
    }

    /// Begins the run of `test_case`: the target is to be started from the
    /// image's entry point, with the image's stack pointer.
    pub fn run_test(&self, test_case: &TestCase) -> (start: (TestRun, Action))
        ensures
            start.0@ == started(self@, test_case@),
            start.1@ == (ActionView::ResetRun {
                stack_ptr: self@.stack_pointer,
                entry_point: self@.entry_point,
            }),
    {
        let run = TestRun {
            case: test_case.clone(),
            stack_pointer: self.stack_pointer,
            entry_point: self.entry_point,
            run_test_addr: self.run_test_addr,
            test_data_addr: self.test_data_addr,
            timing: self.timing,
            phase: Phase::Resetting,
            since: 0,
        };
        (run, Action::ResetRun { stack_ptr: self.stack_pointer, entry_point: self.entry_point })
    }

    /// The merged image.
    pub fn image(&self) -> (image: &LoadSegment)
        ensures
            image@ == self@.image,
    {
        &self.data
    }

    /// The tests found in the image, in the order of its symbol table.
    pub fn tests(&self) -> (tests: &Vec<TestCase>)
        ensures
            test_views(tests@) == self@.tests,
    {
        &self.tests
    }

    /// The initial stack pointer, from the vector table.
    pub fn stack_pointer(&self) -> (value: u32)
        ensures
            value == self@.stack_pointer,
    {
        self.stack_pointer
    }

    /// The address of the reset handler, from the vector table.
    pub fn entry_point(&self) -> (value: u32)
        ensures
            value == self@.entry_point,
    {
        self.entry_point
    }

    /// The address of the slot that takes the address of the test to run.
    pub fn run_test_addr(&self) -> (value: u32)
        ensures
            value == self@.run_test_addr,
    {
        self.run_test_addr
    }

    /// The address of the status record.
    pub fn test_data_addr(&self) -> (value: u32)
        ensures
            value == self@.test_data_addr,
    {
        self.test_data_addr
    }

    /// The timing of the session.
    pub fn timing(&self) -> (timing: Timing)
        ensures
            timing == self@.timing,
    {
        self.timing
    }
}

} // verus!
