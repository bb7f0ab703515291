use remote_session::classify::{attempt_outcome, classify_listing};
use remote_session::error::{AttemptError, SessionError};
use remote_session::lines::{normalize_output, split_lines};
use remote_session::matcher::PromptMatcher;

#[test]
fn echo_round_trip_gives_ordered_lines() {
    let out = b"A\nB\n";
    assert_eq!(normalize_output(out, false), vec!["A".to_string(), "B".to_string()]);
}

#[test]
fn crlf_endings_and_unterminated_last_line() {
    assert_eq!(
        split_lines(b"one\r\ntwo\nthree"),
        vec![b"one".to_vec(), b"two".to_vec(), b"three".to_vec()]
    );
}

#[test]
fn empty_output_has_no_lines() {
    assert_eq!(split_lines(b""), Vec::<Vec<u8>>::new());
    assert_eq!(normalize_output(b"", false), Vec::<String>::new());
}

#[test]
fn empty_lines_kept_or_dropped() {
    let out = b"a\n\nb\n\n";
    assert_eq!(
        normalize_output(out, false),
        vec!["a".to_string(), String::new(), "b".to_string(), String::new()]
    );
    assert_eq!(normalize_output(out, true), vec!["a".to_string(), "b".to_string()]);
}

#[test]
fn invalid_bytes_are_replaced() {
    assert_eq!(normalize_output(b"x\xffy\n", false), vec!["x\u{fffd}y".to_string()]);
}

#[test]
fn blank_listing_is_empty_result() {
    let m = PromptMatcher::standard();
    assert_eq!(classify_listing(b"\n\n\n", true, b"", &m), Err(SessionError::EmptyResult));
    assert_eq!(classify_listing(b"", true, b"", &m), Err(SessionError::EmptyResult));
}

#[test]
fn listing_keeps_non_empty_lines() {
    let m = PromptMatcher::standard();
    assert_eq!(
        classify_listing(b"docs\n\nsrc\n", true, b"", &m),
        Ok(vec!["docs".to_string(), "src".to_string()])
    );
}

#[test]
fn listing_permission_denied_is_auth_rejected() {
    let m = PromptMatcher::standard();
    assert_eq!(
        classify_listing(b"", false, b"root@host: Permission denied (password).\n", &m),
        Err(SessionError::AuthRejected)
    );
}

#[test]
fn listing_failed_exit_is_execution_error() {
    let m = PromptMatcher::standard();
    assert_eq!(
        classify_listing(b"docs\n", false, b"ls: cannot open\n", &m),
        Err(SessionError::ExecutionError)
    );
}

#[test]
fn attempt_outcomes_by_signal() {
    let m = PromptMatcher::standard();
    assert_eq!(attempt_outcome(false, true, b"", true, &m), Err(AttemptError::TransportUnavailable));
    assert_eq!(attempt_outcome(true, false, b"", true, &m), Err(AttemptError::InjectionFailed));
    assert_eq!(
        attempt_outcome(true, true, b"PERMISSION DENIED", false, &m),
        Err(AttemptError::AuthRejected)
    );
    assert_eq!(attempt_outcome(true, true, b"", false, &m), Err(AttemptError::ExecutionError));
    assert_eq!(attempt_outcome(true, true, b"Password:", true, &m), Ok(()));
}
