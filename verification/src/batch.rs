//! The run of all tests of a session, one after the other.

use crate::discovery::test_views;
use crate::discovery::TestCase;
use crate::discovery::TestCaseView;
use crate::error::ProtocolError;
use crate::error::RunnerError;
use crate::error::RunnerErrorView;
use crate::runner::next;
use crate::runner::restarted;
use crate::runner::started;
use crate::runner::Action;
use crate::runner::ActionView;
use crate::runner::Event;
use crate::runner::EventView;
use crate::runner::Runner;
use crate::runner::RunnerView;
use crate::runner::TestResult;
use crate::runner::TestResultView;
use crate::runner::TestRun;
use crate::runner::TestRunView;
use crate::runner_laws::lemma_result_is_earned;
use crate::runner_laws::lemma_step_advances;
use vstd::prelude::*;

verus! {

/// What the driver of a batch is asked to do.
#[derive(Debug, PartialEq, Eq)]
pub enum BatchAction {
    /// Perform the action and report what came of it.
    Perform(Action),
    /// Nothing more: every test has run to its end, or a run has failed and
    /// the tests after it are not run.
    Finish(Result<(), RunnerError>),
}

/// A `BatchAction` with bytes and texts as sequences.
pub enum BatchActionView {
    Perform(ActionView),
    Finish(Result<(), RunnerErrorView>),
}

impl View for BatchAction {
    type V = BatchActionView;

    open spec fn view(&self) -> BatchActionView {
        match *self {
            BatchAction::Perform(action) => BatchActionView::Perform(action@),
            BatchAction::Finish(Ok(())) => BatchActionView::Finish(Ok(())),
            BatchAction::Finish(Err(e)) => BatchActionView::Finish(Err(e@)),
        }
    }
}

/// The run of the tests of a session in their order. The results of the
/// tests that ran to their end are kept, also where a later run fails.
#[derive(Debug)]
pub struct TestBatch {
    tests: Vec<TestCase>,
    results: Vec<TestResult>,
    run: Option<TestRun>,
}

/// The state of a `TestBatch`: the tests, the results so far, and the run
/// that is under way.
pub struct BatchView {
    pub tests: Seq<TestCaseView>,
    pub results: Seq<TestResultView>,
    pub run: Option<TestRunView>,
}

/// The views of a list of results, in the same order.
pub open spec fn result_views(results: Seq<TestResult>) -> Seq<TestResultView> {
    results.map_values(|r: TestResult| r@)
}

impl View for TestBatch {
    type V = BatchView;

    closed spec fn view(&self) -> BatchView {
        BatchView {
            tests: test_views(self.tests@),
            results: result_views(self.results@),
            run: match self.run {
                Some(run) => Some(run@),
                None => None,
            },
        }
    }
}

/// The step of a batch. The event goes to the run that is under way. Where
/// that run ends with a result, the result is kept and the next test begins,
/// or the batch ends if that was the last; where it ends with an error, the
/// batch ends with that error. A batch that has ended answers every event as
/// out of step.
pub open spec fn next_batch(batch: BatchView, event: EventView, now: u64) -> (
    BatchView,
    BatchActionView,
) {
    match batch.run {
        None => (
            batch,
            BatchActionView::Finish(Err(RunnerErrorView::Protocol(ProtocolError::OutOfStep))),
        ),
        Some(run) => match next(run, event, now).1 {
            ActionView::Finish(Ok(result)) => {
                let results = batch.results.push(result);
                if results.len() < batch.tests.len() {
                    (
                        BatchView {
                            results,
                            run: Some(restarted(run, batch.tests[results.len() as int])),
                            ..batch
                        },
                        BatchActionView::Perform(
                            ActionView::ResetRun {
                                stack_ptr: run.stack_pointer,
                                entry_point: run.entry_point,
                            },
                        ),
                    )
                } else {
                    (BatchView { results, run: None, ..batch }, BatchActionView::Finish(Ok(())))
                }
            },
            ActionView::Finish(Err(e)) => (
                BatchView { run: None, ..batch },
                BatchActionView::Finish(Err(e)),
            ),
            action => (
                BatchView { run: Some(next(run, event, now).0), ..batch },
                BatchActionView::Perform(action),
            ),
        },
    }
}

/// The batch of all tests of a session before its first step: the first test
/// is begun, or the batch has ended where there is no test.
pub open spec fn begun(runner: RunnerView) -> (BatchView, BatchActionView) {
    if runner.tests.len() == 0 {
        (
            BatchView { tests: runner.tests, results: Seq::empty(), run: None },
            BatchActionView::Finish(Ok(())),
        )
    } else {
        (
            BatchView {
                tests: runner.tests,
                results: Seq::empty(),
                run: Some(started(runner, runner.tests[0])),
            },
            BatchActionView::Perform(
                ActionView::ResetRun {
                    stack_ptr: runner.stack_pointer,
                    entry_point: runner.entry_point,
                },
            ),
        )
    }
}

/// What holds of a batch at every step: the results are those of the first
/// tests, in order, and the run under way is that of the test after them.
pub open spec fn in_order(batch: BatchView) -> bool {
    &&& batch.results.len() <= batch.tests.len()
    &&& forall|i: int|
        0 <= i < batch.results.len() ==> (#[trigger] batch.results[i]).case == batch.tests[i]
    &&& batch.run matches Some(run) ==> batch.results.len() < batch.tests.len() && run.case
        == batch.tests[batch.results.len() as int]
}

/// A batch begins in order.
pub proof fn lemma_begun_in_order(runner: RunnerView)
    ensures
        in_order(begun(runner).0),
{
}

/// A step keeps a batch in order, and a batch that ends without an error
/// has a result for every test.
pub proof fn lemma_step_in_order(batch: BatchView, event: EventView, now: u64)
    requires
        in_order(batch),
    ensures
        in_order(next_batch(batch, event, now).0),
        next_batch(batch, event, now).0.tests == batch.tests,
        next_batch(batch, event, now).1 == BatchActionView::Finish(Ok(())) ==> next_batch(
            batch,
            event,
            now,
        ).0.results.len() == batch.tests.len(),
        next_batch(batch, event, now).1 is Finish ==> next_batch(batch, event, now).0.run is None,
{
    if let Some(run) = batch.run {
        lemma_step_advances(run, event, now);
        if let ActionView::Finish(Ok(result)) = next(run, event, now).1 {
            lemma_result_is_earned(run, event, now);
            assert(result.case == run.case);
        }
    }
}

impl Runner {
    /// Begins the run of all tests of the session, in the order in which
    /// they were found.
    pub fn run_all_tests(&self) -> (start: (TestBatch, BatchAction))
        ensures
            (start.0@, start.1@) == begun(self@),
    {
        let found = self.tests();
        let mut tests: Vec<TestCase> = Vec::new();
        let mut i: usize = 0;
        assert(test_views(tests@) =~= test_views(found@).take(0));
        while i < found.len()
            invariant
                i <= found@.len(),
                test_views(tests@) == test_views(found@).take(i as int),
            decreases found@.len() - i,
        {
            let ghost before = test_views(tests@);
            let test = found[i].clone();
            tests.push(test);
            i = i + 1;
            assert(test_views(tests@) =~= before.push(test@));
            assert(test_views(tests@) =~= test_views(found@).take(i as int));
        }
        assert(test_views(found@).take(i as int) =~= test_views(found@));
        if tests.len() == 0 {
            let batch = TestBatch { tests, results: Vec::new(), run: None };
            assert(batch@.results =~= Seq::empty());
            (batch, BatchAction::Finish(Ok(())))
        } else {
            let (run, action) = self.run_test(&tests[0]);
            let batch = TestBatch { tests, results: Vec::new(), run: Some(run) };
            assert(batch@.results =~= Seq::empty());
            (batch, BatchAction::Perform(action))
        }
    }
}

impl TestBatch {
    /// Takes in what came of the pending action, reported at the clock's
    /// reading `now_millis`, and says what to do next.
    pub fn step(&mut self, event: Event, now_millis: u64) -> (action: BatchAction)
        ensures
            (final(self)@, action@) == next_batch(old(self)@, event@, now_millis),
    {
        let mut current: Option<TestRun> = None;
        core::mem::swap(&mut current, &mut self.run);
        let mut run = match current {
            Some(run) => run,
            None => {
                return BatchAction::Finish(
                    Err(RunnerError::Protocol(ProtocolError::OutOfStep)),
                );
            },
        };
        match run.step(event, now_millis) {
            Action::Finish(Ok(result)) => {
                let ghost before = result_views(self.results@);
                self.results.push(result);
                assert(result_views(self.results@) =~= before.push(result@));
                let index: usize = self.results.len();
                if index < self.tests.len() {
                    let (following, action) = run.again(&self.tests[index]);
                    self.run = Some(following);
                    BatchAction::Perform(action)
                } else {
                    BatchAction::Finish(Ok(()))
                }
            },
            Action::Finish(Err(e)) => BatchAction::Finish(Err(e)),
            action => {
                self.run = Some(run);
                BatchAction::Perform(action)
            },
        }
    }

    /// The tests of the batch, in the order in which they are run.
    pub fn tests(&self) -> (tests: &Vec<TestCase>)
        ensures
            test_views(tests@) == self@.tests,
    {
        &self.tests
    }

    /// The results of the tests that have run to their end.
    pub fn results(&self) -> (results: &Vec<TestResult>)
        ensures
            result_views(results@) == self@.results,
    {
        &self.results
    }

    /// The test whose run is under way, if the batch has not ended.
    pub fn current(&self) -> (case: Option<&TestCase>)
        ensures
            match case {
                Some(c) => self@.run matches Some(run) && c@ == run.case,
                None => self@.run is None,
            },
    {
        match &self.run {
            Some(run) => Some(run.case()),
            None => None,
        }
    }

    /// Gives up the batch for the results of the tests that have run to
    /// their end.
    pub fn into_results(self) -> (results: Vec<TestResult>)
        ensures
            result_views(results@) == self@.results,
    {
        self.results
    }
}

} // verus!
