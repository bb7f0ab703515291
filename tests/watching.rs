use remote_session::matcher::{contains_ignore_case, LineKind, PromptMatcher};
use remote_session::watcher::{injection_payload, PromptWait, PromptWatcher, WaitDecision, WatchAction, WatchState};

#[test]
fn substring_match_ignores_case() {
    assert!(contains_ignore_case(b"root@host's Password:", b"password"));
    assert!(contains_ignore_case(b"abc", b""));
    assert!(!contains_ignore_case(b"pass", b"password"));
    assert!(!contains_ignore_case(b"passw0rd", b"password"));
}

#[test]
fn rejection_wins_on_a_line_with_both_markers() {
    let m = PromptMatcher::standard();
    assert_eq!(m.classify_line(b"Permission denied, password again"), LineKind::Rejection);
    assert_eq!(m.classify_line(b"Password:"), LineKind::Prompt);
    assert_eq!(m.classify_line(b"Warning: added host key"), LineKind::Other);
}

#[test]
fn custom_markers_are_used() {
    let m = PromptMatcher::new(vec![b"passwort".to_vec()], vec![b"zugriff verweigert".to_vec()]);
    assert_eq!(m.classify_line(b"Passwort:"), LineKind::Prompt);
    assert_eq!(m.classify_line(b"Password:"), LineKind::Other);
    assert_eq!(m.classify_line(b"Zugriff verweigert"), LineKind::Rejection);
}

#[test]
fn prompt_injects_exactly_once() {
    let mut w = PromptWatcher::new(PromptMatcher::standard());
    let lines: [&[u8]; 4] = [b"banner", b"Password:", b"Password:", b"password again"];
    let actions: Vec<WatchAction> = lines.iter().map(|l| w.on_line(l)).collect();
    let injections = actions.iter().filter(|a| **a == WatchAction::Inject).count();
    assert_eq!(injections, 1);
    assert_eq!(actions[1], WatchAction::Inject);
    assert_eq!(w.state, WatchState::Injected);
    assert_eq!(injection_payload("s3cret"), b"s3cret\n".to_vec());
}

#[test]
fn rejection_fails_without_writing() {
    let mut w = PromptWatcher::new(PromptMatcher::standard());
    assert_eq!(w.on_line(b"Permission denied (publickey,password)."), WatchAction::Fail);
    assert_eq!(w.on_line(b"Password:"), WatchAction::Continue);
    assert_eq!(w.state, WatchState::Rejected);
    assert!(w.is_finished());
}

#[test]
fn stream_end_without_marker_is_no_prompt() {
    let mut w = PromptWatcher::new(PromptMatcher::standard());
    assert_eq!(w.on_line(b"Welcome"), WatchAction::Continue);
    assert!(!w.is_finished());
    assert_eq!(w.on_end(), WatchAction::NoPrompt);
    assert_eq!(w.state, WatchState::Ended);
}

#[test]
fn empty_secret_payload_is_a_line_feed() {
    assert_eq!(injection_payload(""), vec![10u8]);
}

#[test]
fn wait_proceeds_at_the_deadline() {
    let mut w = PromptWait::new(10, 1);
    let mut slept = 0;
    while w.poll(false) == WaitDecision::KeepWaiting {
        slept += 1;
        assert!(slept <= 10);
    }
    assert_eq!(slept, 10);
    assert_eq!(w.elapsed, 10);
}

#[test]
fn wait_overshoots_by_less_than_an_interval() {
    let mut w = PromptWait::new(10, 3);
    let mut polls = 0;
    while w.poll(false) == WaitDecision::KeepWaiting {
        polls += 1;
    }
    assert_eq!(polls, 4);
    assert_eq!(w.elapsed, 12);
}

#[test]
fn wait_ends_when_watcher_finishes() {
    let mut w = PromptWait::new(10, 1);
    assert_eq!(w.poll(false), WaitDecision::KeepWaiting);
    assert_eq!(w.poll(true), WaitDecision::Proceed);
    assert_eq!(w.elapsed, 1);
}

#[test]
fn zero_deadline_proceeds_at_once() {
    let mut w = PromptWait::new(0, 5);
    assert_eq!(w.poll(false), WaitDecision::Proceed);
}
