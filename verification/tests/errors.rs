use target_tester::error::ImageError;
use target_tester::error::MandatorySymbol;
use target_tester::error::ProtocolError;
use target_tester::error::RunnerError;
use target_tester::error::TimeoutError;
use target_tester::text::push_decimal;
use target_tester::text::push_lower_hex;
use target_tester::text::push_upper_hex;

#[test]
fn numbers_in_decimal() {
    for n in [0u32, 7, 10, 42, 99, 100, 1234567890, u32::MAX] {
        let mut text = String::from("n=");
        push_decimal(&mut text, n as u64);
        assert_eq!(text, format!("n={}", n));
    }
}

#[test]
fn numbers_in_upper_case_hexadecimal() {
    for n in [0u32, 9, 10, 15, 16, 255, 0x2000, 0xDEADBEEF, 0xBAF2C481, u32::MAX] {
        let mut text = String::from("@");
        push_upper_hex(&mut text, n as u64);
        assert_eq!(text, format!("@{:X}", n));
    }
}

#[test]
fn numbers_in_lower_case_hexadecimal() {
    for n in [0u64, 9, 10, 15, 16, 255, 0xdeadbeef, u64::MAX] {
        let mut text = String::from("0x");
        push_lower_hex(&mut text, n);
        assert_eq!(text, format!("{:#x}", n));
    }
}

#[test]
fn numbers_past_32_bits() {
    let mut text = String::new();
    push_decimal(&mut text, u64::MAX);
    assert_eq!(text, "18446744073709551615");
    let mut text = String::new();
    push_upper_hex(&mut text, 0x1_0000_0000);
    assert_eq!(text, "100000000");
}

#[test]
fn image_errors_in_words() {
    assert_eq!(
        RunnerError::Image(ImageError::NoLoadableSegment).message(),
        "Binary does not contain a loadable segment."
    );
    assert_eq!(
        RunnerError::Image(ImageError::VectorTableOutOfRange).message(),
        "Vector table not in binary."
    );
    assert_eq!(
        RunnerError::Image(ImageError::MissingSymbol(MandatorySymbol::FunToRun)).message(),
        "Did not find test runner in binary (symbol `target_test_fun_to_run` missing). Did you link it?"
    );
    assert_eq!(
        ImageError::MissingSymbol(MandatorySymbol::TestData).message(),
        "Did not find test runner in binary (symbol `target_test_data` missing). Did you link it?"
    );
}

#[test]
fn protocol_errors_in_words() {
    assert_eq!(
        RunnerError::Protocol(ProtocolError::InvalidCrc).message(),
        "Connection failed to read from RAM: Invalid CRC"
    );
    assert_eq!(
        RunnerError::Protocol(ProtocolError::BadLength).message(),
        "Connection failed to read from RAM: Invalid length"
    );
    assert_eq!(
        RunnerError::Protocol(ProtocolError::InvalidState(3)).message(),
        "Invalid data on target: State was: 3"
    );
    assert_eq!(
        ProtocolError::InvalidState(0xBAF2C480).message(),
        "Invalid data on target: State was: 3136472192"
    );
    assert_eq!(
        ProtocolError::WrongFunction { expected: 0x2000, executed: 0x20AB }.message(),
        "Test framework executed wrong test function. Expected function @2000 but executed @20AB"
    );
    assert_eq!(
        ProtocolError::NoFunction { expected: 0x0800_01FF }.message(),
        "Test framework did not execute a test function. Expected function @80001FF"
    );
    assert_eq!(
        ProtocolError::OutOfStep.message(),
        "Test driver reported an event out of step"
    );
}

#[test]
fn timeouts_and_link_failures_in_words() {
    assert_eq!(
        RunnerError::Timeout(TimeoutError::Ready).message(),
        "Timeout while waiting for test suite to start up"
    );
    assert_eq!(
        RunnerError::Timeout(TimeoutError::Done).message(),
        "Timeout while waiting for test to finish"
    );
    assert_eq!(RunnerError::Transport("USB error -7".to_string()).message(), "USB error -7");
    assert_eq!(RunnerError::Transport(String::new()).message(), "");
}

#[test]
fn a_cloned_error_is_the_same() {
    let errors = [
        RunnerError::Image(ImageError::NoLoadableSegment),
        RunnerError::Transport("USB error -7".to_string()),
        RunnerError::Protocol(ProtocolError::InvalidState(9)),
        RunnerError::Timeout(TimeoutError::Done),
    ];
    for error in errors {
        assert_eq!(error.clone(), error);
    }
}
