use remote_session::error::{Phase, SessionError};
use remote_session::target::{parse_target, DEFAULT_PORT};

#[test]
fn parses_user_and_host() {
    let t = parse_target("root@10.0.0.5").unwrap();
    assert_eq!(t.user, "root");
    assert_eq!(t.host, "10.0.0.5");
    assert_eq!(t.port, 22);
    assert_eq!(t.port, DEFAULT_PORT);
}

#[test]
fn rejects_two_delimiters() {
    assert_eq!(parse_target("root@a@b"), Err(SessionError::MalformedTarget));
}

#[test]
fn rejects_empty_user() {
    assert_eq!(parse_target("@host"), Err(SessionError::MalformedTarget));
}

#[test]
fn rejects_empty_host() {
    assert_eq!(parse_target("user@"), Err(SessionError::MalformedTarget));
}

#[test]
fn rejects_missing_delimiter_and_empty_text() {
    assert_eq!(parse_target("hostonly"), Err(SessionError::MalformedTarget));
    assert_eq!(parse_target(""), Err(SessionError::MalformedTarget));
    assert_eq!(parse_target("@"), Err(SessionError::MalformedTarget));
}

#[test]
fn parses_non_ascii_sides() {
    let t = parse_target("пользователь@хост.рф").unwrap();
    assert_eq!(t.user, "пользователь");
    assert_eq!(t.host, "хост.рф");
}

#[test]
fn overrides_the_port() {
    let t = parse_target("a@b").unwrap().with_port(2222);
    assert_eq!(t.user, "a");
    assert_eq!(t.host, "b");
    assert_eq!(t.port, 2222);
}

#[test]
fn errors_name_their_phase() {
    assert_eq!(SessionError::MalformedTarget.phase(), Phase::Parse);
    assert_eq!(SessionError::TransportUnavailable.phase(), Phase::Connect);
    assert_eq!(SessionError::AuthRejected.phase(), Phase::Authenticate);
    assert_eq!(SessionError::ExecutionError.phase(), Phase::Execute);
    assert_eq!(SessionError::TransferWriteError.phase(), Phase::Transfer);
    assert_eq!(SessionError::EmptyResult.phase(), Phase::Execute);
}
