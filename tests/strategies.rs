use remote_session::chain::{AuthenticationStrategy, ChainAction, StrategyChain};
use remote_session::error::{AttemptError, SessionError};
use remote_session::native::authenticate_native;
use remote_session::target::parse_target;
use remote_session::transfer::{TransferState, TransferStep};

#[test]
fn no_helper_means_one_interactive_attempt() {
    let mut c = StrategyChain::new(false, false, false);
    assert_eq!(c.start(), ChainAction::Attempt(AuthenticationStrategy::InteractiveProcess));
    assert_eq!(
        c.on_outcome(Err(AttemptError::TransportUnavailable)),
        ChainAction::Fail(SessionError::AuthExhausted(AttemptError::TransportUnavailable))
    );
    assert!(c.finished);
    let mut c = StrategyChain::new(false, false, false);
    assert_eq!(c.on_outcome(Ok(())), ChainAction::Connected(AuthenticationStrategy::InteractiveProcess));
}

#[test]
fn helpers_fall_back_in_order() {
    let mut c = StrategyChain::new(false, true, true);
    assert_eq!(c.start(), ChainAction::Attempt(AuthenticationStrategy::HelperA));
    assert_eq!(
        c.on_outcome(Err(AttemptError::TransportUnavailable)),
        ChainAction::Attempt(AuthenticationStrategy::HelperB)
    );
    assert_eq!(
        c.on_outcome(Err(AttemptError::ExecutionError)),
        ChainAction::Attempt(AuthenticationStrategy::InteractiveProcess)
    );
    assert_eq!(
        c.on_outcome(Err(AttemptError::InjectionFailed)),
        ChainAction::Fail(SessionError::AuthExhausted(AttemptError::InjectionFailed))
    );
}

#[test]
fn rejection_is_final() {
    let mut c = StrategyChain::new(false, true, false);
    assert_eq!(c.on_outcome(Err(AttemptError::AuthRejected)), ChainAction::Fail(SessionError::AuthRejected));
    assert!(c.finished);
}

#[test]
fn native_failure_is_terminal() {
    let mut c = StrategyChain::new(true, true, true);
    assert_eq!(c.plan, vec![AuthenticationStrategy::NativeLibrary]);
    assert_eq!(
        c.on_outcome(Err(AttemptError::TransportUnavailable)),
        ChainAction::Fail(SessionError::TransportUnavailable)
    );
}

#[test]
fn write_failure_skips_close() {
    let s = TransferState::begin();
    assert_eq!(s.current_step(), Some(TransferStep::Open));
    let s = s.after(true);
    assert_eq!(s.current_step(), Some(TransferStep::Write));
    let s = s.after(false);
    assert_eq!(s, TransferState::Failed(SessionError::TransferWriteError));
    assert_eq!(s.current_step(), None);
}

#[test]
fn transfer_steps_run_in_order() {
    let mut s = TransferState::begin();
    let mut steps = Vec::new();
    while let Some(step) = s.current_step() {
        steps.push(step);
        s = s.after(true);
    }
    assert_eq!(
        steps,
        vec![
            TransferStep::Open,
            TransferStep::Write,
            TransferStep::SendEof,
            TransferStep::WaitEof,
            TransferStep::Close,
            TransferStep::WaitClose
        ]
    );
    assert_eq!(s, TransferState::Done);
}

#[test]
fn open_and_close_failures_by_phase() {
    assert_eq!(TransferState::begin().after(false), TransferState::Failed(SessionError::TransferOpenError));
    let s = TransferState::begin().after(true).after(true).after(true).after(false);
    assert_eq!(s, TransferState::Failed(SessionError::TransferCloseError));
}

#[test]
fn unattached_session_is_transport_unavailable() {
    let mut session = ssh2::Session::new().unwrap();
    let target = parse_target("root@10.0.0.5").unwrap();
    assert_eq!(
        authenticate_native(&mut session, &target, "pw"),
        Err(AttemptError::TransportUnavailable)
    );
}
