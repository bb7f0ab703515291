use vstd::prelude::*;

verus! {

/// The phase of an operation in which a failure happened.
#[derive(Debug, Clone, Copy, PartialEq, Eq, Structural)]
pub enum Phase {
    Parse,
    Connect,
    Authenticate,
    Execute,
    Transfer,
}

/// Every way an operation on a remote session can fail.
#[derive(Debug, Clone, PartialEq, Eq)]
pub enum SessionError {
    /// The connection target is not of the form `user@host`.
    MalformedTarget,
    /// No strategy could even start (no route, no handshake).
    TransportUnavailable,
    /// The credential was refused.
    AuthRejected,
    /// Writing the secret into a process's input stream failed.
    InjectionFailed,
    /// The command could not be dispatched after authentication.
    ExecutionError,
    /// The command's output could not be fully drained.
    ReadError,
    /// The file transfer channel could not be opened.
    TransferOpenError,
    /// Writing the file content failed.
    TransferWriteError,
    /// The end sequence of a transfer failed.
    TransferCloseError,
    /// A listing ran successfully but produced no usable line.
    EmptyResult,
    /// Every strategy of the chain failed; holds the last strategy's error.
    AuthExhausted(AttemptError),
}

/// How a single authentication attempt failed.
#[derive(Debug, Clone, Copy, PartialEq, Eq, Structural)]
pub enum AttemptError {
    /// The strategy could not start (helper missing, connection refused).
    TransportUnavailable,
    /// The credential was refused.
    AuthRejected,
    /// The secret could not be written to the prompting process.
    InjectionFailed,
    /// The attempt started but failed for another reason.
    ExecutionError,
}

impl AttemptError {
    pub open spec fn spec_to_session_error(self) -> SessionError {
        match self {
            AttemptError::TransportUnavailable => SessionError::TransportUnavailable,
            AttemptError::AuthRejected => SessionError::AuthRejected,
            AttemptError::InjectionFailed => SessionError::InjectionFailed,
            AttemptError::ExecutionError => SessionError::ExecutionError,
        }
    }

    /// The same failure as an error of a whole operation.
    pub fn to_session_error(self) -> (r: SessionError)
        ensures
            r == self.spec_to_session_error(),
    {
        match self {
            AttemptError::TransportUnavailable => SessionError::TransportUnavailable,
            AttemptError::AuthRejected => SessionError::AuthRejected,
            AttemptError::InjectionFailed => SessionError::InjectionFailed,
            AttemptError::ExecutionError => SessionError::ExecutionError,
        }
    }
}

impl SessionError {
    pub open spec fn spec_phase(&self) -> Phase {
        match self {
            SessionError::MalformedTarget => Phase::Parse,
            SessionError::TransportUnavailable => Phase::Connect,
            SessionError::AuthRejected => Phase::Authenticate,
            SessionError::InjectionFailed => Phase::Authenticate,
            SessionError::ExecutionError => Phase::Execute,
            SessionError::ReadError => Phase::Execute,
            SessionError::TransferOpenError => Phase::Transfer,
            SessionError::TransferWriteError => Phase::Transfer,
            SessionError::TransferCloseError => Phase::Transfer,
            SessionError::EmptyResult => Phase::Execute,
            SessionError::AuthExhausted(_) => Phase::Authenticate,
        }
    }

    /// The phase that failed, which decides what a caller may retry.
    pub fn phase(&self) -> (r: Phase)
        ensures
            r == self.spec_phase(),
    {
        match self {
            SessionError::MalformedTarget => Phase::Parse,
            SessionError::TransportUnavailable => Phase::Connect,
            SessionError::AuthRejected => Phase::Authenticate,
            SessionError::InjectionFailed => Phase::Authenticate,
            SessionError::ExecutionError => Phase::Execute,
            SessionError::ReadError => Phase::Execute,
            SessionError::TransferOpenError => Phase::Transfer,
            SessionError::TransferWriteError => Phase::Transfer,
            SessionError::TransferCloseError => Phase::Transfer,
            SessionError::EmptyResult => Phase::Execute,
            SessionError::AuthExhausted(_) => Phase::Authenticate,
        }
    }
}

} // verus!
