//! The results of a session, put in the shape of a report: one group for
//! each suite, one record for each test.

use crate::batch::result_views;
use crate::discovery::TestCase;
use crate::discovery::TestCaseView;
use crate::protocol::text_view;
use crate::runner::FailedAssert;
use crate::runner::FailedAssertView;
use crate::runner::TestResult;
use crate::runner::TestResultView;
use crate::text::decimal;
use crate::text::push_decimal;
use vstd::prelude::*;
use vstd::string::StringExecFns;

verus! {

/// The kind under which a failed test is reported.
pub const FAILURE_KIND: &'static str = "Assert Failed";

/// The record of one test: its name, and what is said of its failure if it
/// did not pass.
#[derive(Debug, PartialEq, Eq)]
pub struct CaseReport {
    pub name: String,
    pub failure: Option<String>,
}

/// A `CaseReport` with its texts as sequences of characters.
pub struct CaseReportView {
    pub name: Seq<char>,
    pub failure: Option<Seq<char>>,
}

impl View for CaseReport {
    type V = CaseReportView;

    open spec fn view(&self) -> CaseReportView {
        CaseReportView { name: self.name@, failure: text_view(self.failure) }
    }
}

/// The records of the tests of one suite.
#[derive(Debug, PartialEq, Eq)]
pub struct SuiteReport {
    pub name: String,
    pub cases: Vec<CaseReport>,
}

/// A `SuiteReport` with its texts and records as sequences.
pub struct SuiteReportView {
    pub name: Seq<char>,
    pub cases: Seq<CaseReportView>,
}

impl View for SuiteReport {
    type V = SuiteReportView;

    open spec fn view(&self) -> SuiteReportView {
        SuiteReportView { name: self.name@, cases: self.cases@.map_values(|c: CaseReport| c@) }
    }
}

/// The views of a list of suites, in the same order.
pub open spec fn suite_views(suites: Seq<SuiteReport>) -> Seq<SuiteReportView> {
    suites.map_values(|s: SuiteReport| s@)
}

/// What is said of a failed assertion: the file and the line, as far as the
/// target reported them; a file that is not known is left empty, a line that
/// is not known is written as zero.
pub open spec fn failure_text(error: FailedAssertView) -> Seq<char> {
    "Assert failed at "@ + (match error.file_name {
        Some(name) => name,
        None => Seq::empty(),
    }) + ":"@ + decimal(
        match error.lineno {
            Some(line) => line as nat,
            None => 0,
        },
    )
}

/// The record of one test.
pub open spec fn case_of(result: TestResultView) -> CaseReportView {
    CaseReportView {
        name: result.case.test_name,
        failure: match result.error {
            Some(error) => Some(failure_text(error)),
            None => None,
        },
    }
}

/// The position of the suite named `name`, or the number of suites where
/// there is none of that name.
pub open spec fn position(suites: Seq<SuiteReportView>, name: Seq<char>) -> int
    decreases suites.len(),
{
    if suites.len() == 0 {
        0
    } else if position(suites.drop_last(), name) < suites.len() - 1 {
        position(suites.drop_last(), name)
    } else if suites.last().name == name {
        suites.len() - 1
    } else {
        suites.len() as int
    }
}

/// The suites with one more record: in the suite of the test's name, which
/// comes last if it is new.
pub open spec fn with_case(suites: Seq<SuiteReportView>, result: TestResultView) -> Seq<
    SuiteReportView,
> {
    let at = position(suites, result.case.suite_name);
    if at < suites.len() {
        suites.update(
            at,
            SuiteReportView {
                name: suites[at].name,
                cases: suites[at].cases.push(case_of(result)),
            },
        )
    } else {
        suites.push(
            SuiteReportView { name: result.case.suite_name, cases: seq![case_of(result)] },
        )
    }
}

/// The results grouped by suite: the suites in the order in which their
/// first test appears, the tests of a suite in the order of the results.
pub open spec fn grouped(results: Seq<TestResultView>) -> Seq<SuiteReportView>
    decreases results.len(),
{
    if results.len() == 0 {
        Seq::empty()
    } else {
        with_case(grouped(results.drop_last()), results.last())
    }
}

/// `position` finds the first suite of the name, and only a suite of the
/// name.
pub proof fn lemma_position(suites: Seq<SuiteReportView>, name: Seq<char>)
    ensures
        0 <= position(suites, name) <= suites.len(),
        position(suites, name) < suites.len() ==> suites[position(suites, name)].name == name,
        forall|i: int| 0 <= i < position(suites, name) ==> (#[trigger] suites[i]).name != name,
    decreases suites.len(),
{
    if suites.len() > 0 {
        let head = suites.drop_last();
        lemma_position(head, name);
        assert forall|i: int| 0 <= i < position(suites, name) implies (#[trigger] suites[i]).name
            != name by {
            if i < head.len() {
                assert(head[i] == suites[i]);
            }
        }
        if position(head, name) < head.len() {
            assert(head[position(head, name)] == suites[position(head, name)]);
        }
    }
}

/// No two suites of `suites` have the same name.
pub open spec fn distinct_names(suites: Seq<SuiteReportView>) -> bool {
    forall|i: int, j: int| 0 <= i < j < suites.len() ==> suites[i].name != suites[j].name
}

/// The number of records in all of `suites`.
pub open spec fn case_count(suites: Seq<SuiteReportView>) -> int
    decreases suites.len(),
{
    if suites.len() == 0 {
        0
    } else {
        case_count(suites.drop_last()) + suites.last().cases.len()
    }
}

proof fn lemma_case_count_update(suites: Seq<SuiteReportView>, at: int, suite: SuiteReportView)
    requires
        0 <= at < suites.len(),
    ensures
        case_count(suites.update(at, suite)) == case_count(suites) - suites[at].cases.len()
            + suite.cases.len(),
    decreases suites.len(),
{
    let changed = suites.update(at, suite);
    if at == suites.len() - 1 {
        assert(changed.drop_last() =~= suites.drop_last());
    } else {
        assert(changed.drop_last() =~= suites.drop_last().update(at, suite));
        lemma_case_count_update(suites.drop_last(), at, suite);
    }
}

/// Grouping loses no result and makes none up: every suite has a name of its
/// own and at least one record, and there are as many records as results.
pub proof fn lemma_grouped(results: Seq<TestResultView>)
    ensures
        distinct_names(grouped(results)),
        case_count(grouped(results)) == results.len(),
        forall|i: int| 0 <= i < grouped(results).len() ==> (#[trigger] grouped(
            results,
        )[i]).cases.len() > 0,
    decreases results.len(),
{
    if results.len() > 0 {
        let before = grouped(results.drop_last());
        let result = results.last();
        let after = grouped(results);
        lemma_grouped(results.drop_last());
        lemma_position(before, result.case.suite_name);
        let at = position(before, result.case.suite_name);
        if at < before.len() {
            lemma_case_count_update(before, at, after[at]);
            assert forall|i: int, j: int| 0 <= i < j < after.len() implies after[i].name
                != after[j].name by {
                assert(after[i].name == before[i].name && after[j].name == before[j].name);
            }
            assert forall|i: int| 0 <= i < after.len() implies (#[trigger] after[i]).cases.len()
                > 0 by {
                if i != at {
                    assert(after[i] == before[i]);
                }
            }
        } else {
            assert(after.drop_last() =~= before);
            assert forall|i: int, j: int| 0 <= i < j < after.len() implies after[i].name
                != after[j].name by {
                assert(after[i] == before[i]);
                if j < before.len() {
                    assert(after[j] == before[j]);
                }
            }
            assert forall|i: int| 0 <= i < after.len() implies (#[trigger] after[i]).cases.len()
                > 0 by {
                if i < before.len() {
                    assert(after[i] == before[i]);
                }
            }
        }
    }
}

/// Says in words where an assertion failed.
pub fn failure_message(error: &FailedAssert) -> (text: String)
    ensures
        text@ == failure_text(error@),
{
    let mut text = String::from_str("Assert failed at ");
    match &error.file_name {
        Some(name) => {
            text.append(name.as_str());
        },
        None => {
            assert(text@ + Seq::<char>::empty() =~= text@);
        },
    }
    text.append(":");
    let line: u32 = match error.lineno {
        Some(line) => line,
        None => 0,
    };
    push_decimal(&mut text, line as u64);
    text
}

/// Makes the record of one test.
pub fn case_report(result: &TestResult) -> (case: CaseReport)
    ensures
        case@ == case_of(result@),
{
    CaseReport {
        name: result.case.test_name.clone(),
        failure: match &result.error {
            Some(error) => Some(failure_message(error)),
            None => None,
        },
    }
}

fn find_suite(suites: &Vec<SuiteReport>, name: &String) -> (at: usize)
    ensures
        at == position(suite_views(suites@), name@),
{
    let ghost all = suite_views(suites@);
    let mut i: usize = 0;
    while i < suites.len()
        invariant
            i <= suites@.len(),
            all == suite_views(suites@),
            forall|j: int| 0 <= j < i ==> (#[trigger] all[j]).name != name@,
        decreases suites@.len() - i,
    {
        if suites[i].name == *name {
            proof {
                lemma_position(all, name@);
                assert(all[i as int].name == name@);
                let found = position(all, name@);
                if found < i {
                    assert(all[found].name == name@);
                }
            }
            return i;
        }
        i = i + 1;
    }
    proof {
        lemma_position(all, name@);
    }
    i
}

/// Groups the results of a session by suite.
pub fn group_by_suite(results: &Vec<TestResult>) -> (suites: Vec<SuiteReport>)
    ensures
        suite_views(suites@) == grouped(result_views(results@)),
{
    let ghost all = result_views(results@);
    let mut suites: Vec<SuiteReport> = Vec::new();
    let mut i: usize = 0;
    assert(all.take(0) =~= Seq::empty());
    assert(suite_views(suites@) =~= Seq::empty());
    while i < results.len()
        invariant
            i <= results@.len(),
            all == result_views(results@),
            suite_views(suites@) == grouped(all.take(i as int)),
        decreases results@.len() - i,
    {
        let result: &TestResult = &results[i];
        assert(all.take(i + 1).drop_last() =~= all.take(i as int));
        assert(all.take(i + 1).last() == result@);
        let ghost before = suite_views(suites@);
        let case = case_report(result);
        let at = find_suite(&suites, &result.case.suite_name);
        if at < suites.len() {
            let mut suite = suites.remove(at);
            assert(suite@ == before[at as int]);
            let ghost cases = suite@.cases;
            suite.cases.push(case);
            assert(suite@.cases =~= cases.push(case@));
            suites.insert(at, suite);
            assert(suite_views(suites@) =~= with_case(before, result@));
        } else {
            let mut cases: Vec<CaseReport> = Vec::new();
            cases.push(case);
            let suite = SuiteReport { name: result.case.suite_name.clone(), cases };
            assert(suite@.cases =~= seq![case@]);
            suites.push(suite);
            assert(suite_views(suites@) =~= with_case(before, result@));
        }
        i = i + 1;
    }
    assert(all.take(i as int) =~= all);
    suites
}

/// What is said before a test is run.
pub open spec fn announcement_text(case: TestCaseView) -> Seq<char> {
    "Running test: "@ + case.suite_name + " -- "@ + case.test_name
}

/// What is said of a test that has run: that it passed, or where it failed,
/// with a file that is not known left empty and a line that is not known
/// written as zero.
pub open spec fn outcome_text(result: TestResultView) -> Seq<char> {
    match result.error {
        Some(error) => "Test failed at: "@ + (match error.file_name {
            Some(name) => name,
            None => Seq::empty(),
        }) + ":"@ + decimal(
            match error.lineno {
                Some(line) => line as nat,
                None => 0,
            },
        ),
        None => "Test Passed\n"@,
    }
}

/// Says which test is about to run.
pub fn announcement(case: &TestCase) -> (text: String)
    ensures
        text@ == announcement_text(case@),
{
    let mut text = String::from_str("Running test: ");
    text.append(case.suite_name.as_str());
    text.append(" -- ");
    text.append(case.test_name.as_str());
    text
}

/// Says how a test went.
pub fn outcome_line(result: &TestResult) -> (text: String)
    ensures
        text@ == outcome_text(result@),
{
    match &result.error {
        Some(error) => {
            let mut text = String::from_str("Test failed at: ");
            match &error.file_name {
                Some(name) => {
                    text.append(name.as_str());
                },
                None => {
                    assert(text@ + Seq::<char>::empty() =~= text@);
                },
            }
            text.append(":");
            let line: u32 = match error.lineno {
                Some(line) => line,
                None => 0,
            };
            push_decimal(&mut text, line as u64);
            text
        },
        None => String::from_str("Test Passed\n"),
    }
}

} // verus!
