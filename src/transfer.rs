use crate::error::SessionError;
use vstd::prelude::*;

verus! {

/// The steps of a file transfer, in the order they run.
#[derive(Debug, Clone, Copy, PartialEq, Eq, Structural)]
pub enum TransferStep {
    /// Open the transfer channel, sized to the content.
    Open,
    /// Write the whole content.
    Write,
    /// Signal the end of the file.
    SendEof,
    /// Wait for the peer's end-of-file acknowledgment.
    WaitEof,
    /// Close the channel.
    Close,
    /// Wait for the peer to acknowledge the close.
    WaitClose,
}

/// Where a transfer stands.
#[derive(Debug, Clone, PartialEq, Eq)]
pub enum TransferState {
    /// This step is the next to run.
    Pending(TransferStep),
    /// Every step succeeded.
    Done,
    /// A step failed; nothing more runs.
    Failed(SessionError),
}

pub open spec fn step_after(s: TransferStep) -> Option<TransferStep> {
    match s {
        TransferStep::Open => Some(TransferStep::Write),
        TransferStep::Write => Some(TransferStep::SendEof),
        TransferStep::SendEof => Some(TransferStep::WaitEof),
        TransferStep::WaitEof => Some(TransferStep::Close),
        TransferStep::Close => Some(TransferStep::WaitClose),
        TransferStep::WaitClose => None,
    }
}

/// The error that reports a failure of step `s`.
pub open spec fn step_error(s: TransferStep) -> SessionError {
    match s {
        TransferStep::Open => SessionError::TransferOpenError,
        TransferStep::Write => SessionError::TransferWriteError,
        _ => SessionError::TransferCloseError,
    }
}

/// The state after the pending step ended, successfully or not.
pub open spec fn transfer_after(st: TransferState, ok: bool) -> TransferState {
    match st {
        TransferState::Pending(s) => if ok {
            match step_after(s) {
                Some(n) => TransferState::Pending(n),
                None => TransferState::Done,
            }
        } else {
            TransferState::Failed(step_error(s))
        },
        _ => st,
    }
}

/// Runs the steps with the given outcomes in turn: the final state and the
/// steps that were run. Outcomes left over after the transfer ended are
/// not used.
pub open spec fn transfer_run(st: TransferState, oks: Seq<bool>) -> (TransferState, Seq<TransferStep>)
    decreases oks.len(),
{
    match st {
        TransferState::Pending(s) => if oks.len() > 0 {
            let (f, steps) = transfer_run(transfer_after(st, oks[0]), oks.skip(1));
            (f, seq![s] + steps)
        } else {
            (st, seq![])
        },
        _ => (st, seq![]),
    }
}

/// What an ended transfer reports to its caller.
pub open spec fn transfer_result(st: TransferState) -> Result<(), SessionError> {
    match st {
        TransferState::Failed(e) => Err(e),
        _ => Ok(()),
    }
}

/// The transfer run on outcomes `oks` has ended and reports `r`.
pub open spec fn transfer_ends_with(oks: Seq<bool>, r: Result<(), SessionError>) -> bool {
    let run = transfer_run(TransferState::Pending(TransferStep::Open), oks).0;
    !(run is Pending) && r == transfer_result(run)
}

/// One more outcome extends a run that was still going by one step.
pub proof fn lemma_run_extend(st: TransferState, oks: Seq<bool>, ok: bool)
    requires
        transfer_run(st, oks).0 is Pending,
    ensures
        transfer_run(st, oks.push(ok)).0 == transfer_after(transfer_run(st, oks).0, ok),
    decreases oks.len(),
{
    if !(st is Pending) {
        assert(transfer_run(st, oks).0 == st);
    }
    let longer = oks.push(ok);
    if oks.len() > 0 {
        assert(longer[0] == oks[0]);
        assert(longer.skip(1) =~= oks.skip(1).push(ok));
        let next = transfer_after(st, oks[0]);
        assert(transfer_run(st, oks).0 == transfer_run(next, oks.skip(1)).0);
        lemma_run_extend(next, oks.skip(1), ok);
        assert(transfer_run(st, longer).0 == transfer_run(next, longer.skip(1)).0);
    } else {
        assert(longer[0] == ok);
        assert(longer.skip(1) =~= Seq::<bool>::empty());
        assert(transfer_run(st, oks).0 == st);
        let next = transfer_after(st, ok);
        assert(transfer_run(next, longer.skip(1)).0 == next);
        assert(transfer_run(st, longer).0 == transfer_run(next, longer.skip(1)).0);
    }
}

/// How many steps are left at most; it falls with each step.
pub open spec fn steps_left(st: TransferState) -> nat {
    match st {
        TransferState::Pending(s) => match s {
            TransferStep::Open => 6,
            TransferStep::Write => 5,
            TransferStep::SendEof => 4,
            TransferStep::WaitEof => 3,
            TransferStep::Close => 2,
            TransferStep::WaitClose => 1,
        },
        _ => 0,
    }
}

impl TransferState {
    /// A transfer that has not started.
    pub fn begin() -> (r: TransferState)
        ensures
            r == TransferState::Pending(TransferStep::Open),
    {
        TransferState::Pending(TransferStep::Open)
    }

    /// The step to run now, if the transfer is still going.
    pub fn current_step(&self) -> (r: Option<TransferStep>)
        ensures
            r == (match *self {
                TransferState::Pending(s) => Some(s),
                _ => None,
            }),
    {
        match self {
            TransferState::Pending(s) => Some(*s),
            _ => None,
        }
    }

    /// The state after the pending step ended with `ok`.
    pub fn after(self, ok: bool) -> (r: TransferState)
        ensures
            r == transfer_after(self, ok),
            self is Pending ==> steps_left(r) < steps_left(self),
    {
        match self {
            TransferState::Pending(s) => {
                if !ok {
                    TransferState::Failed(
                        match s {
                            TransferStep::Open => SessionError::TransferOpenError,
                            TransferStep::Write => SessionError::TransferWriteError,
                            _ => SessionError::TransferCloseError,
                        },
                    )
                } else {
                    match s {
                        TransferStep::Open => TransferState::Pending(TransferStep::Write),
                        TransferStep::Write => TransferState::Pending(TransferStep::SendEof),
                        TransferStep::SendEof => TransferState::Pending(TransferStep::WaitEof),
                        TransferStep::WaitEof => TransferState::Pending(TransferStep::Close),
                        TransferStep::Close => TransferState::Pending(TransferStep::WaitClose),
                        TransferStep::WaitClose => TransferState::Done,
                    }
                }
            },
            other => other,
        }
    }
}

/// Once the channel is open, a failed content write ends the transfer with
/// `TransferWriteError`, and none of the end-of-file or close steps runs,
/// whatever outcomes would have followed.
pub proof fn lemma_write_failure_skips_close(oks: Seq<bool>)
    requires
        oks.len() >= 2,
        oks[0],
        !oks[1],
    ensures
        transfer_run(TransferState::Pending(TransferStep::Open), oks) == (
            TransferState::Failed(SessionError::TransferWriteError),
            seq![TransferStep::Open, TransferStep::Write],
        ),
{
    let r1 = oks.skip(1);
    let r2 = r1.skip(1);
    assert(r1[0] == oks[1]);
    let failed = TransferState::Failed(SessionError::TransferWriteError);
    assert(transfer_after(TransferState::Pending(TransferStep::Write), r1[0]) == failed);
    assert(transfer_run(failed, r2).1 =~= Seq::<TransferStep>::empty());
    assert(transfer_run(TransferState::Pending(TransferStep::Write), r1).0 == failed);
    assert(transfer_run(TransferState::Pending(TransferStep::Write), r1).1 =~= seq![
        TransferStep::Write,
    ]);
    assert(transfer_run(TransferState::Pending(TransferStep::Open), oks).1 =~= seq![
        TransferStep::Open,
        TransferStep::Write,
    ]);
}

/// When every step succeeds the transfer runs all six steps in order and
/// ends done.
pub proof fn lemma_all_steps_succeed(oks: Seq<bool>)
    requires
        oks.len() >= 6,
        forall|i: int| 0 <= i < 6 ==> oks[i],
    ensures
        transfer_run(TransferState::Pending(TransferStep::Open), oks) == (
            TransferState::Done,
            seq![
                TransferStep::Open,
                TransferStep::Write,
                TransferStep::SendEof,
                TransferStep::WaitEof,
                TransferStep::Close,
                TransferStep::WaitClose,
            ],
        ),
{
    let o1 = oks.skip(1);
    let o2 = o1.skip(1);
    let o3 = o2.skip(1);
    let o4 = o3.skip(1);
    let o5 = o4.skip(1);
    let o6 = o5.skip(1);
    assert(o1[0] == oks[1] && o2[0] == oks[2] && o3[0] == oks[3] && o4[0] == oks[4] && o5[0]
        == oks[5]);
    assert(transfer_run(TransferState::Done, o6).1 =~= Seq::<TransferStep>::empty());
    assert(transfer_run(TransferState::Pending(TransferStep::WaitClose), o5).1 =~= seq![
        TransferStep::WaitClose,
    ]);
    assert(transfer_run(TransferState::Pending(TransferStep::Close), o4).1 =~= seq![
        TransferStep::Close,
        TransferStep::WaitClose,
    ]);
    assert(transfer_run(TransferState::Pending(TransferStep::WaitEof), o3).1 =~= seq![
        TransferStep::WaitEof,
        TransferStep::Close,
        TransferStep::WaitClose,
    ]);
    assert(transfer_run(TransferState::Pending(TransferStep::SendEof), o2).1 =~= seq![
        TransferStep::SendEof,
        TransferStep::WaitEof,
        TransferStep::Close,
        TransferStep::WaitClose,
    ]);
    assert(transfer_run(TransferState::Pending(TransferStep::Write), o1).1 =~= seq![
        TransferStep::Write,
        TransferStep::SendEof,
        TransferStep::WaitEof,
        TransferStep::Close,
        TransferStep::WaitClose,
    ]);
    assert(transfer_run(TransferState::Pending(TransferStep::Open), oks).1 =~= seq![
        TransferStep::Open,
        TransferStep::Write,
        TransferStep::SendEof,
        TransferStep::WaitEof,
        TransferStep::Close,
        TransferStep::WaitClose,
    ]);
}

} // verus!
