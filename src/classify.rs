use crate::error::{AttemptError, SessionError};
use crate::lines::{kept_lines, normalize_output, normalized, split_lines, views, without_empty};
use crate::matcher::{any_marker, PromptMatcher};
use vstd::prelude::*;

verus! {

/// The outcome of one process-based authentication attempt, from what the
/// process showed: whether it started, whether the secret could be written,
/// its diagnostic stream and whether it exited successfully.
pub open spec fn attempt_outcome_of(
    spawned: bool,
    injection_ok: bool,
    diagnostics: Seq<u8>,
    exit_ok: bool,
    m: PromptMatcher,
) -> Result<(), AttemptError> {
    if !spawned {
        Err(AttemptError::TransportUnavailable)
    } else if !injection_ok {
        Err(AttemptError::InjectionFailed)
    } else if any_marker(diagnostics, m.rejection_markers()) {
        Err(AttemptError::AuthRejected)
    } else if !exit_ok {
        Err(AttemptError::ExecutionError)
    } else {
        Ok(())
    }
}

/// Classifies a process-based attempt for the strategy chain.
pub fn attempt_outcome(
    spawned: bool,
    injection_ok: bool,
    diagnostics: &[u8],
    exit_ok: bool,
    matcher: &PromptMatcher,
) -> (r: Result<(), AttemptError>)
    ensures
        r == attempt_outcome_of(spawned, injection_ok, diagnostics@, exit_ok, *matcher),
{
    if !spawned {
        Err(AttemptError::TransportUnavailable)
    } else if !injection_ok {
        Err(AttemptError::InjectionFailed)
    } else if matcher.is_rejection(diagnostics) {
        Err(AttemptError::AuthRejected)
    } else if !exit_ok {
        Err(AttemptError::ExecutionError)
    } else {
        Ok(())
    }
}

/// Whether the output holds a non-empty line.
fn has_kept_line(out: &[u8]) -> (r: bool)
    ensures
        r == (kept_lines(out@, true).len() > 0),
{
    let lines = split_lines(out);
    let ghost all = views(lines@);
    let mut i: usize = 0;
    while i < lines.len()
        invariant
            i <= lines@.len(),
            all == views(lines@),
            all == kept_lines(out@, false),
            without_empty(all.take(i as int)).len() == 0,
        decreases lines@.len() - i,
    {
        proof {
            assert(all.take(i as int + 1).drop_last() =~= all.take(i as int));
            assert(lines@[i as int]@ == all[i as int]);
        }
        if lines[i].len() > 0 {
            proof {
                lemma_without_empty_grows(all, i as int);
                lemma_without_empty_prefix(all, i as int + 1);
            }
            return true;
        }
        i = i + 1;
    }
    proof {
        assert(all.take(lines@.len() as int) =~= all);
    }
    false
}

proof fn lemma_without_empty_grows(ls: Seq<Seq<u8>>, i: int)
    requires
        0 <= i < ls.len(),
        ls[i].len() > 0,
    ensures
        without_empty(ls.take(i + 1)).len() > 0,
{
    assert(ls.take(i + 1).last() == ls[i]);
}

proof fn lemma_without_empty_prefix(ls: Seq<Seq<u8>>, n: int)
    requires
        0 <= n <= ls.len(),
    ensures
        without_empty(ls.take(n)).len() <= without_empty(ls).len(),
    decreases ls.len() - n,
{
    if n < ls.len() {
        lemma_without_empty_prefix(ls, n + 1);
        assert(ls.take(n + 1).drop_last() =~= ls.take(n));
    } else {
        assert(ls.take(n) =~= ls);
    }
}

/// The result of a directory listing from the command's output, its exit
/// status and its diagnostic stream. A rejection marker on the diagnostic
/// stream means the credential was refused; a failed exit otherwise is an
/// execution error; a listing without any non-empty line is empty.
pub fn classify_listing(out: &[u8], exit_ok: bool, diagnostics: &[u8], matcher: &PromptMatcher) -> (r:
    Result<Vec<String>, SessionError>)
    ensures
        any_marker(diagnostics@, matcher.rejection_markers()) ==> r == Err::<Vec<String>, SessionError>(
            SessionError::AuthRejected,
        ),
        !any_marker(diagnostics@, matcher.rejection_markers()) && !exit_ok ==> r == Err::<
            Vec<String>,
            SessionError,
        >(SessionError::ExecutionError),
        !any_marker(diagnostics@, matcher.rejection_markers()) && exit_ok && kept_lines(out@, true).len()
            == 0 ==> r == Err::<Vec<String>, SessionError>(SessionError::EmptyResult),
        !any_marker(diagnostics@, matcher.rejection_markers()) && exit_ok && kept_lines(out@, true).len()
            > 0 ==> r is Ok && normalized(r->Ok_0@, out@, true),
{
    if matcher.is_rejection(diagnostics) {
        Err(SessionError::AuthRejected)
    } else if !exit_ok {
        Err(SessionError::ExecutionError)
    } else if !has_kept_line(out) {
        Err(SessionError::EmptyResult)
    } else {
        Ok(normalize_output(out, true))
    }
}

} // verus!
