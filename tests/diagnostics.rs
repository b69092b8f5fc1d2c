use rush::diagnostics::{decimal_string, exit_status_message, parse_error_message};
use rush::tokenizer::ParseError;

#[test]
fn zero_exit_status_reports_nothing() {
    assert_eq!(exit_status_message(Some(0)), None);
}

#[test]
fn nonzero_exit_status_is_reported() {
    assert_eq!(
        exit_status_message(Some(2)),
        Some("error: command exited with error code 2\n".to_string())
    );
    assert_eq!(
        exit_status_message(Some(127)),
        Some("error: command exited with error code 127\n".to_string())
    );
}

#[test]
fn negative_exit_status_is_reported_with_sign() {
    assert_eq!(
        exit_status_message(Some(-13)),
        Some("error: command exited with error code -13\n".to_string())
    );
}

#[test]
fn missing_exit_status_is_reported() {
    assert_eq!(
        exit_status_message(None),
        Some("error: command ended without an exit code\n".to_string())
    );
}

#[test]
fn decimal_rendering_of_extremes() {
    assert_eq!(decimal_string(0), "0");
    assert_eq!(decimal_string(10), "10");
    assert_eq!(decimal_string(i32::MAX), "2147483647");
    assert_eq!(decimal_string(i32::MIN), "-2147483648");
}

#[test]
fn too_long_message() {
    assert_eq!(parse_error_message(ParseError::CommandTooLong), "error: command too long\n");
}
