use std::time::SystemTime;
use target_tester::discovery::TestCase;
use target_tester::protocol::TargetAssertion;
use target_tester::report::announcement;
use target_tester::report::case_report;
use target_tester::report::failure_message;
use target_tester::report::group_by_suite;
use target_tester::report::outcome_line;
use target_tester::report::CaseReport;
use target_tester::report::SuiteReport;
use target_tester::report::FAILURE_KIND;
use target_tester::runner::FailedAssert;
use target_tester::runner::TestResult;

fn outcome(suite: &str, test: &str, error: Option<FailedAssert>) -> TestResult {
    TestResult {
        case: TestCase { suite_name: suite.to_string(), test_name: test.to_string(), addr: 0 },
        timestamp: SystemTime::UNIX_EPOCH,
        error,
    }
}

fn failed_at(file: Option<&str>, line: Option<u32>) -> FailedAssert {
    FailedAssert {
        lineno: line,
        file_name: file.map(|name| name.to_string()),
        assertion: Some(TargetAssertion::Equal),
    }
}

fn passed(name: &str) -> CaseReport {
    CaseReport { name: name.to_string(), failure: None }
}

#[test]
fn results_are_grouped_by_suite_in_order_of_appearance() {
    let suites = group_by_suite(&vec![
        outcome("math", "add", None),
        outcome("io", "open", Some(failed_at(Some("io.c"), Some(17)))),
        outcome("math", "sub", None),
        outcome("str", "len", None),
        outcome("io", "close", None),
    ]);
    assert_eq!(
        suites,
        vec![
            SuiteReport { name: "math".to_string(), cases: vec![passed("add"), passed("sub")] },
            SuiteReport {
                name: "io".to_string(),
                cases: vec![
                    CaseReport {
                        name: "open".to_string(),
                        failure: Some("Assert failed at io.c:17".to_string()),
                    },
                    passed("close"),
                ],
            },
            SuiteReport { name: "str".to_string(), cases: vec![passed("len")] },
        ]
    );
}

#[test]
fn no_results_make_no_suites() {
    assert_eq!(group_by_suite(&vec![]), vec![]);
}

#[test]
fn tests_of_one_name_are_all_reported() {
    let suites = group_by_suite(&vec![outcome("s", "t", None), outcome("s", "t", None)]);
    assert_eq!(suites.len(), 1);
    assert_eq!(suites[0].cases, vec![passed("t"), passed("t")]);
}

#[test]
fn a_failure_names_file_and_line() {
    assert_eq!(failure_message(&failed_at(Some("test.c"), Some(42))), "Assert failed at test.c:42");
    assert_eq!(failure_message(&failed_at(None, Some(7))), "Assert failed at :7");
    assert_eq!(failure_message(&failed_at(Some("a.c"), None)), "Assert failed at a.c:0");
    assert_eq!(failure_message(&failed_at(None, None)), "Assert failed at :0");
    assert_eq!(
        failure_message(&failed_at(Some("long.c"), Some(u32::MAX))),
        "Assert failed at long.c:4294967295"
    );
    assert_eq!(FAILURE_KIND, "Assert Failed");
}

#[test]
fn the_record_of_a_test() {
    assert_eq!(case_report(&outcome("s", "fine", None)), passed("fine"));
    assert_eq!(
        case_report(&outcome("s", "bad", Some(failed_at(Some("b.c"), Some(1))))),
        CaseReport { name: "bad".to_string(), failure: Some("Assert failed at b.c:1".to_string()) }
    );
}

#[test]
fn what_is_said_while_tests_run() {
    let case = TestCase { suite_name: "demo".to_string(), test_name: "ok".to_string(), addr: 1 };
    assert_eq!(announcement(&case), "Running test: demo -- ok");
    assert_eq!(outcome_line(&outcome("demo", "ok", None)), "Test Passed\n");
    assert_eq!(
        outcome_line(&outcome("demo", "ok", Some(failed_at(Some("test.c"), Some(42))))),
        "Test failed at: test.c:42"
    );
    let unknown = outcome("demo", "ok", Some(failed_at(None, None)));
    assert_eq!(outcome_line(&unknown), "Test failed at: :0");
}

#[test]
fn a_cloned_result_is_the_same() {
    let result = outcome("io", "open", Some(failed_at(Some("io.c"), Some(17))));
    assert_eq!(result.clone(), result);
    let fine = outcome("io", "close", None);
    assert_eq!(fine.clone(), fine);
    let error = failed_at(None, Some(3));
    assert_eq!(error.clone(), error);
}
