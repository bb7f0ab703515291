use crate::classify::classify_listing;
use crate::error::{AttemptError, SessionError};
use crate::lines::{kept_lines, normalize_output, normalized};
use crate::matcher::PromptMatcher;
use crate::target::ConnectionTarget;
use crate::transfer::{
    lemma_run_extend, steps_left, transfer_ends_with, transfer_run, TransferState, TransferStep,
};
use vstd::prelude::*;

verus! {

#[verifier::external_type_specification]
#[verifier::external_body]
pub struct ExSession(ssh2::Session);

#[verifier::external_type_specification]
#[verifier::external_body]
pub struct ExChannel(ssh2::Channel);

#[verifier::external_type_specification]
#[verifier::external_body]
pub struct ExStream(ssh2::Stream);

#[verifier::external_type_specification]
#[verifier::external_body]
pub struct ExSshError(ssh2::Error);

#[verifier::external_type_specification]
#[verifier::external_body]
pub struct ExIoError(std::io::Error);

/// Relies on ssh2's `Session::handshake`: the protocol handshake over the
/// attached stream, which may fail.
pub assume_specification[ ssh2::Session::handshake ](session: &mut ssh2::Session) -> Result<
    (),
    ssh2::Error,
>;

/// Relies on ssh2's `Session::userauth_password`: password authentication,
/// which may fail.
pub assume_specification[ ssh2::Session::userauth_password ](
    session: &ssh2::Session,
    username: &str,
    password: &str,
) -> Result<(), ssh2::Error>;

/// Relies on ssh2's `Session::channel_session`: opens a session channel, which
/// may fail.
pub assume_specification[ ssh2::Session::channel_session ](session: &ssh2::Session) -> Result<
    ssh2::Channel,
    ssh2::Error,
>;

/// Relies on ssh2's `Channel::exec`: starts the command on the channel, which
/// may fail.
pub assume_specification[ ssh2::Channel::exec ](channel: &mut ssh2::Channel, command: &str) -> Result<
    (),
    ssh2::Error,
>;

/// Relies on ssh2's `Channel::send_eof`, which may fail.
pub assume_specification[ ssh2::Channel::send_eof ](channel: &mut ssh2::Channel) -> Result<
    (),
    ssh2::Error,
>;

/// Relies on ssh2's `Channel::wait_eof`, which may fail.
pub assume_specification[ ssh2::Channel::wait_eof ](channel: &mut ssh2::Channel) -> Result<
    (),
    ssh2::Error,
>;

/// Relies on ssh2's `Channel::close`, which may fail.
pub assume_specification[ ssh2::Channel::close ](channel: &mut ssh2::Channel) -> Result<
    (),
    ssh2::Error,
>;

/// Relies on ssh2's `Channel::wait_close`, which may fail.
pub assume_specification[ ssh2::Channel::wait_close ](channel: &mut ssh2::Channel) -> Result<
    (),
    ssh2::Error,
>;

/// Relies on ssh2's `Channel::exit_status`: the remote command's exit code.
pub assume_specification[ ssh2::Channel::exit_status ](channel: &ssh2::Channel) -> Result<
    i32,
    ssh2::Error,
>;

/// Relies on ssh2's `Session::scp_send`: opens an SCP channel for a file of
/// `size` bytes with permission bits `mode` at `path`, which may fail.
#[verifier::external_body]
fn scp_open(session: &ssh2::Session, path: &str, mode: i32, size: u64) -> (r: Result<
    ssh2::Channel,
    ssh2::Error,
>) {
    session.scp_send(std::path::Path::new(path), mode, size, None)
}

/// Relies on ssh2's `Channel::stream`: a handle on substream `stream_id` of
/// the channel (0 is the command's standard input and output).
pub assume_specification[ ssh2::Channel::stream ](channel: &ssh2::Channel, stream_id: i32) -> ssh2::Stream;

/// Relies on ssh2's `Channel::stderr`: a handle on the channel's diagnostic
/// stream.
pub assume_specification[ ssh2::Channel::stderr ](channel: &ssh2::Channel) -> ssh2::Stream;

/// Relies on `std::io::Read::read_to_end` on an ssh2 `Stream`: the bytes of
/// the stream until its end, or an error.
#[verifier::external_body]
fn read_all(stream: &mut ssh2::Stream) -> (r: Result<Vec<u8>, std::io::Error>) {
    let mut buf = Vec::new();
    std::io::Read::read_to_end(stream, &mut buf).map(|_| buf)
}

/// Relies on `std::io::Write::write_all` on an ssh2 `Stream`: writes all of
/// `data`, or fails.
#[verifier::external_body]
fn write_all(stream: &mut ssh2::Stream, data: &[u8]) -> (r: Result<(), std::io::Error>) {
    std::io::Write::write_all(stream, data)
}

/// The substream of a channel that carries the command's own data.
pub const DATA_STREAM: i32 = 0;

/// Permission bits of a transferred file: owner read/write, others read.
pub const FILE_MODE: i32 = 0o644;

/// Authenticates an attached session: a failed handshake means the transport
/// is unavailable, a failed password authentication that the credential was
/// refused.
pub fn authenticate_native(session: &mut ssh2::Session, target: &ConnectionTarget, password: &str) -> (r:
    Result<(), AttemptError>)
    ensures
        r is Err ==> r->Err_0 == AttemptError::TransportUnavailable || r->Err_0
            == AttemptError::AuthRejected,
{
    match session.handshake() {
        Err(_) => {
            return Err(AttemptError::TransportUnavailable);
        },
        Ok(_) => {},
    }
    match session.userauth_password(target.user.as_str(), password) {
        Err(_) => Err(AttemptError::AuthRejected),
        Ok(_) => Ok(()),
    }
}

/// Runs `command` on the session and returns its output as lines, empty
/// lines included. A dispatch failure is an execution error, a failure to
/// drain the output a read error; the remote exit status does not count.
pub fn execute_ssh_command(session: &ssh2::Session, command: &str) -> (r: Result<
    Vec<String>,
    SessionError,
>)
    ensures
        r is Ok ==> exists|out: Seq<u8>| normalized(r->Ok_0@, out, false),
        r is Err ==> r->Err_0 == SessionError::ExecutionError || r->Err_0
            == SessionError::ReadError,
{
    let mut channel = match session.channel_session() {
        Ok(c) => c,
        Err(_) => {
            return Err(SessionError::ExecutionError);
        },
    };
    match channel.exec(command) {
        Err(_) => {
            return Err(SessionError::ExecutionError);
        },
        Ok(_) => {},
    }
    let out = match read_all(&mut channel.stream(DATA_STREAM)) {
        Ok(b) => b,
        Err(_) => {
            return Err(SessionError::ReadError);
        },
    };
    let _ = channel.wait_close();
    let lines = normalize_output(out.as_slice(), false);
    let r: Result<Vec<String>, SessionError> = Ok(lines);
    assert(normalized(r->Ok_0@, out@, false));
    r
}

/// Lists the remote home directory: the non-empty lines of `ls`. A rejection
/// marker on the diagnostic stream is a refused credential, a failed exit an
/// execution error, and a listing without a non-empty line is empty.
pub fn list_remote_directories(session: &ssh2::Session, matcher: &PromptMatcher) -> (r: Result<
    Vec<String>,
    SessionError,
>)
    ensures
        r is Ok ==> exists|out: Seq<u8>|
            kept_lines(out, true).len() > 0 && normalized(r->Ok_0@, out, true),
        r is Err ==> r->Err_0 == SessionError::ExecutionError || r->Err_0
            == SessionError::ReadError || r->Err_0 == SessionError::AuthRejected || r->Err_0
            == SessionError::EmptyResult,
{
    let mut channel = match session.channel_session() {
        Ok(c) => c,
        Err(_) => {
            return Err(SessionError::ExecutionError);
        },
    };
    match channel.exec("ls") {
        Err(_) => {
            return Err(SessionError::ExecutionError);
        },
        Ok(_) => {},
    }
    let out = match read_all(&mut channel.stream(DATA_STREAM)) {
        Ok(b) => b,
        Err(_) => {
            return Err(SessionError::ReadError);
        },
    };
    let diagnostics = match read_all(&mut channel.stderr()) {
        Ok(b) => b,
        Err(_) => {
            return Err(SessionError::ReadError);
        },
    };
    let _ = channel.wait_close();
    let exit_ok = match channel.exit_status() {
        Ok(code) => code == 0,
        Err(_) => false,
    };
    classify_listing(out.as_slice(), exit_ok, diagnostics.as_slice(), matcher)
}

/// Runs one step of a transfer on the open channel.
fn run_step(channel: &mut ssh2::Channel, step: TransferStep, content: &[u8]) -> (ok: bool) {
    match step {
        TransferStep::Open => false,
        TransferStep::Write => write_all(&mut channel.stream(DATA_STREAM), content).is_ok(),
        TransferStep::SendEof => channel.send_eof().is_ok(),
        TransferStep::WaitEof => channel.wait_eof().is_ok(),
        TransferStep::Close => channel.close().is_ok(),
        TransferStep::WaitClose => channel.wait_close().is_ok(),
    }
}

/// Writes `content` to the remote file `path` over SCP: open a channel sized
/// to the content, write it, then the end sequence. Each step that fails is
/// reported by its phase, and nothing runs after it.
pub fn save_remote_file(session: &ssh2::Session, path: &str, content: &[u8]) -> (r: Result<
    (),
    SessionError,
>)
    ensures
        exists|oks: Seq<bool>| transfer_ends_with(oks, r),
        r is Err ==> r->Err_0 == SessionError::TransferOpenError || r->Err_0
            == SessionError::TransferWriteError || r->Err_0 == SessionError::TransferCloseError,
{
    let mut channel: Option<ssh2::Channel> = None;
    let mut state = TransferState::begin();
    let ghost mut oks: Seq<bool> = seq![];
    loop
        invariant
            state == transfer_run(TransferState::Pending(TransferStep::Open), oks).0,
            match state {
                TransferState::Pending(s) => s != TransferStep::Open ==> channel is Some,
                TransferState::Failed(e) => e == SessionError::TransferOpenError || e
                    == SessionError::TransferWriteError || e == SessionError::TransferCloseError,
                TransferState::Done => true,
            },
        ensures
            state == transfer_run(TransferState::Pending(TransferStep::Open), oks).0,
            !(state is Pending),
            match state {
                TransferState::Failed(e) => e == SessionError::TransferOpenError || e
                    == SessionError::TransferWriteError || e == SessionError::TransferCloseError,
                _ => true,
            },
        decreases steps_left(state),
    {
        let step = match state.current_step() {
            Some(s) => s,
            None => break,
        };
        let ok = match step {
            TransferStep::Open => match scp_open(session, path, FILE_MODE, content.len() as u64) {
                Ok(c) => {
                    channel = Some(c);
                    true
                },
                Err(_) => false,
            },
            _ => match &mut channel {
                Some(c) => run_step(c, step, content),
                None => false,
            },
        };
        proof {
            lemma_run_extend(TransferState::Pending(TransferStep::Open), oks, ok);
            oks = oks.push(ok);
        }
        state = state.after(ok);
    }
    let r = match state {
        TransferState::Failed(e) => Err(e),
        _ => Ok(()),
    };
    assert(transfer_ends_with(oks, r));
    r
}

} // verus!
