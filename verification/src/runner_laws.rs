//! What holds of every step of the run of a test, and of every run in which
//! the target never gets ready.

use crate::error::ProtocolError;
use crate::error::RunnerErrorView;
use crate::error::TimeoutError;
use crate::protocol::assembled;
use crate::protocol::parse_record;
use crate::protocol::populated;
use crate::protocol::TargetDataView;
use crate::protocol::TargetState;
use crate::protocol::RECORD_LEN;
use crate::runner::after_snapshot;
use crate::runner::awaited;
use crate::runner::elapsed;
use crate::runner::fail;
use crate::runner::keep_waiting;
use crate::runner::next;
use crate::runner::timed_out;
use crate::runner::timeout_of;
use crate::runner::verdict;
use crate::runner::ActionView;
use crate::runner::EventView;
use crate::runner::Phase;
use crate::runner::Poll;
use crate::runner::TestRunView;
use vstd::prelude::*;

verus! {

/// How far a run has come.
pub open spec fn progress(phase: Phase) -> int {
    match phase {
        Phase::Resetting => 0,
        Phase::AwaitingReady(_) => 1,
        Phase::Injecting(_) => 2,
        Phase::Running => 3,
        Phase::AwaitingDone(_) => 4,
        Phase::Decoded => 5,
    }
}

/// A step changes nothing of a run but its phase and the start of its wait,
/// and never takes it back to an earlier phase.
pub proof fn lemma_step_advances(run: TestRunView, event: EventView, now: u64)
    ensures
        next(run, event, now).0 == (TestRunView {
            phase: next(run, event, now).0.phase,
            since: next(run, event, now).0.since,
            ..run
        }),
        progress(run.phase) <= progress(next(run, event, now).0.phase),
{
}

/// A run ends with its last action: the step that asks for nothing more
/// leaves the run decoded, every other step leaves it in an earlier phase, and
/// a run that is decoded answers every further event as out of step.
pub proof fn lemma_step_ends_once(run: TestRunView, event: EventView, now: u64)
    ensures
        next(run, event, now).1 is Finish <==> next(run, event, now).0.phase == Phase::Decoded,
        run.phase == Phase::Decoded ==> next(run, event, now) == fail(
            run,
            RunnerErrorView::Protocol(ProtocolError::OutOfStep),
        ),
{
}

/// No pause is asked for once the deadline of a wait has passed.
pub proof fn lemma_no_pause_past_deadline(run: TestRunView, event: EventView, now: u64)
    requires
        next(run, event, now).1 is Sleep,
    ensures
        next(run, event, now).0.phase == Phase::AwaitingReady(Poll::Sleeping) ==> elapsed(
            next(run, event, now).0.since,
            now,
        ) < run.timing.ready_timeout_millis,
        next(run, event, now).0.phase == Phase::AwaitingDone(Poll::Sleeping) ==> elapsed(
            next(run, event, now).0.since,
            now,
        ) < run.timing.done_timeout_millis,
        next(run, event, now).0.phase == Phase::AwaitingReady(Poll::Sleeping) || next(
            run,
            event,
            now,
        ).0.phase == Phase::AwaitingDone(Poll::Sleeping),
{
}

/// A result is made only of a snapshot, taken while the test ran, that shows
/// the test passed or failed and names the test that was asked for.
pub proof fn lemma_result_is_earned(run: TestRunView, event: EventView, now: u64)
    requires
        next(run, event, now).1 matches ActionView::Finish(Ok(_)),
    ensures
        run.phase is AwaitingDone,
        exists|data: TargetDataView|
            awaited(false, data.state) && data.executed_function == Some(run.case.addr)
                && #[trigger] verdict(run.case, data) == next(run, event, now).1->Finish_0,
{
    match event {
        EventView::Data(bytes) => {
            let record = parse_record(bytes)->Ok_0;
            assert(verdict(run.case, assembled(record, None)) == next(
                run,
                event,
                now,
            ).1->Finish_0);
        },
        EventView::Text(text) => {
            let record = run.phase->AwaitingDone_0->ReadingPath_0;
            assert(verdict(run.case, assembled(record, Some(text))) == next(
                run,
                event,
                now,
            ).1->Finish_0);
        },
        _ => {},
    }
}

/// The target is told which test to run only after a snapshot, taken while
/// it started up, has shown it ready.
pub proof fn lemma_injection_needs_ready(run: TestRunView, event: EventView, now: u64)
    requires
        !(run.phase is Injecting),
        next(run, event, now).0.phase is Injecting,
    ensures
        run.phase is AwaitingReady,
        next(run, event, now).1 == (ActionView::Halt {
            timeout_millis: run.timing.halt_timeout_millis,
        }),
        exists|data: TargetDataView|
            #[trigger] after_snapshot(run, true, data, now) == next(run, event, now)
                && data.state == Some(TargetState::Ready),
{
    match event {
        EventView::Data(bytes) => {
            let record = parse_record(bytes)->Ok_0;
            assert(after_snapshot(run, true, assembled(record, None), now) == next(
                run,
                event,
                now,
            ));
        },
        EventView::Text(text) => {
            let record = run.phase->AwaitingReady_0->ReadingPath_0;
            assert(after_snapshot(run, true, assembled(record, Some(text)), now) == next(
                run,
                event,
                now,
            ));
        },
        _ => {},
    }
}

/// A wait ends at its deadline: a snapshot that is taken once the time of
/// the wait has passed, and that does not show the state waited for, ends the
/// run with the timeout error of that wait. No result is made of it.
pub proof fn lemma_deadline(run: TestRunView, ready: bool, data: TargetDataView, now: u64)
    requires
        !awaited(ready, data.state),
        elapsed(run.since, now) >= timeout_of(run.timing, ready),
    ensures
        after_snapshot(run, ready, data, now) == fail(
            run,
            RunnerErrorView::Timeout(timed_out(ready)),
        ),
{
}

/// While the target starts up, memory that the test runtime has not written
/// yet is passed over, and ends the run with the timeout error once the time
/// of the wait has passed.
pub proof fn lemma_unpopulated_is_passed_over(run: TestRunView, bytes: Seq<u8>, now: u64)
    requires
        run.phase == Phase::AwaitingReady(Poll::Reading),
        bytes.len() == RECORD_LEN,
        !populated(bytes),
    ensures
        next(run, EventView::Data(bytes), now) == keep_waiting(run, true, now),
        elapsed(run.since, now) >= run.timing.ready_timeout_millis ==> next(
            run,
            EventView::Data(bytes),
            now,
        ) == fail(run, RunnerErrorView::Timeout(TimeoutError::Ready)),
{
}

/// The run after a sequence of events, each with the clock's reading at which
/// it is reported.
pub open spec fn run_after(run: TestRunView, trace: Seq<(EventView, u64)>) -> TestRunView
    decreases trace.len(),
{
    if trace.len() == 0 {
        run
    } else {
        next(run_after(run, trace.drop_last()), trace.last().0, trace.last().1).0
    }
}

/// The action that the last event of a sequence is answered with.
pub open spec fn last_action(run: TestRunView, trace: Seq<(EventView, u64)>) -> ActionView
    recommends
        trace.len() > 0,
{
    next(run_after(run, trace.drop_last()), trace.last().0, trace.last().1).1
}

/// Whether the bytes are a status record that decodes and shows the target
/// ready.
pub open spec fn shows_ready(bytes: Seq<u8>) -> bool {
    parse_record(bytes) matches Ok(record) && record.state == Some(TargetState::Ready)
}

/// No reading of the status record in the sequence shows the target ready.
pub open spec fn never_ready(trace: Seq<(EventView, u64)>) -> bool {
    forall|k: int|
        0 <= k < trace.len() ==> ((#[trigger] trace[k]).0 matches EventView::Data(bytes)
            ==> !shows_ready(bytes))
}

/// Where a run stands as long as the target has not been seen ready: at its
/// start, in the wait for the target to get ready, or at its end.
pub open spec fn held_back(phase: Phase) -> bool {
    match phase {
        Phase::Resetting => true,
        Phase::AwaitingReady(Poll::ReadingPath(record)) => record.state != Some(
            TargetState::Ready,
        ),
        Phase::AwaitingReady(_) => true,
        Phase::Decoded => true,
        _ => false,
    }
}

/// What a run that is held back may ask for or end with: a pause, a reading
/// of the status record or of a file path, or an error other than the
/// timeout of a test.
pub open spec fn held_back_action(action: ActionView) -> bool {
    match action {
        ActionView::Sleep { .. } => true,
        ActionView::ReadRam { .. } => true,
        ActionView::ReadString { .. } => true,
        ActionView::Finish(Err(RunnerErrorView::Timeout(TimeoutError::Done))) => false,
        ActionView::Finish(Err(_)) => true,
        _ => false,
    }
}

proof fn lemma_held_back_step(run: TestRunView, event: EventView, now: u64)
    requires
        held_back(run.phase),
        event matches EventView::Data(bytes) ==> !shows_ready(bytes),
    ensures
        held_back(next(run, event, now).0.phase),
        held_back_action(next(run, event, now).1),
{
}

/// A target that never gets ready is never told which test to run: however
/// the run of a test goes on from its start, as long as no reading of the
/// status record shows the target ready, the run stays held back. It asks
/// for no halt, no write and no go, and it makes no result; if it ends, it
/// ends with an error, and not with the timeout of a test.
pub proof fn lemma_never_ready(run: TestRunView, trace: Seq<(EventView, u64)>)
    requires
        run.phase == Phase::Resetting,
        never_ready(trace),
    ensures
        held_back(run_after(run, trace).phase),
        trace.len() > 0 ==> held_back_action(last_action(run, trace)),
    decreases trace.len(),
{
    if trace.len() > 0 {
        let head = trace.drop_last();
        assert forall|k: int| 0 <= k < head.len() implies ((#[trigger] head[k]).0 matches EventView::Data(
            bytes,
        ) ==> !shows_ready(bytes)) by {
            assert(head[k] == trace[k]);
        }
        lemma_never_ready(run, head);
        assert(trace.last() == trace[trace.len() - 1]);
        lemma_held_back_step(run_after(run, head), trace.last().0, trace.last().1);
    }
}

} // verus!
