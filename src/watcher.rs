use crate::matcher::{classify, LineKind, PromptMatcher};
use vstd::arithmetic::div_mod::lemma_fundamental_div_mod;
use vstd::prelude::*;
use vstd::string::StringSliceAdditionalSpecFns;

verus! {

/// Where a prompt watcher stands.
#[derive(Debug, Clone, Copy, PartialEq, Eq, Structural)]
pub enum WatchState {
    /// No decisive line seen yet.
    Watching,
    /// The secret was handed over once; later lines change nothing.
    Injected,
    /// The credential was refused; nothing is ever written.
    Rejected,
    /// The stream ended without a decisive line.
    Ended,
}

/// What the watcher asks its owner to do after a line or the stream's end.
#[derive(Debug, Clone, Copy, PartialEq, Eq, Structural)]
pub enum WatchAction {
    /// Keep reading.
    Continue,
    /// Write the injection payload to the process's input and flush it.
    Inject,
    /// Report an authentication failure; write nothing.
    Fail,
    /// The stream ended without a prompt: not an error by itself.
    NoPrompt,
}

/// One line of the diagnostic stream, already classified.
pub open spec fn watch_step(st: WatchState, kind: LineKind) -> (WatchState, WatchAction) {
    match st {
        WatchState::Watching => match kind {
            LineKind::Prompt => (WatchState::Injected, WatchAction::Inject),
            LineKind::Rejection => (WatchState::Rejected, WatchAction::Fail),
            LineKind::Other => (WatchState::Watching, WatchAction::Continue),
        },
        _ => (st, WatchAction::Continue),
    }
}

/// The state after a run of lines, and the action for each line in order.
pub open spec fn watch_run(st: WatchState, kinds: Seq<LineKind>) -> (WatchState, Seq<WatchAction>)
    decreases kinds.len(),
{
    if kinds.len() == 0 {
        (st, seq![])
    } else {
        let (mid, acts) = watch_run(st, kinds.drop_last());
        let (next, a) = watch_step(mid, kinds.last());
        (next, acts.push(a))
    }
}

/// How many of `acts` are injections.
pub open spec fn injections(acts: Seq<WatchAction>) -> nat
    decreases acts.len(),
{
    if acts.len() == 0 {
        0
    } else {
        injections(acts.drop_last()) + if acts.last() == WatchAction::Inject {
            1nat
        } else {
            0nat
        }
    }
}

/// The first line that is a prompt or a rejection, if any.
pub open spec fn first_decisive(kinds: Seq<LineKind>) -> Option<LineKind>
    decreases kinds.len(),
{
    if kinds.len() == 0 {
        None
    } else {
        match first_decisive(kinds.drop_last()) {
            Some(k) => Some(k),
            None => if kinds.last() == LineKind::Other {
                None
            } else {
                Some(kinds.last())
            },
        }
    }
}

/// How a matcher classifies each line of a stream.
pub open spec fn line_kinds(m: PromptMatcher, lines: Seq<Seq<u8>>) -> Seq<LineKind> {
    lines.map_values(|l: Seq<u8>| classify(l, m.prompt_markers(), m.rejection_markers()))
}

/// The bytes written on a prompt: the secret and one line feed.
pub open spec fn payload_of(secret: Seq<u8>) -> Seq<u8> {
    secret.push(10u8)
}

/// Watches a process's diagnostic stream line by line and decides, at most
/// once, whether the secret is to be written.
#[derive(Debug, Clone)]
pub struct PromptWatcher {
    pub matcher: PromptMatcher,
    pub state: WatchState,
}

impl PromptWatcher {
    /// A watcher that has seen nothing yet.
    pub fn new(matcher: PromptMatcher) -> (r: PromptWatcher)
        ensures
            r.matcher == matcher,
            r.state == WatchState::Watching,
    {
        PromptWatcher { matcher, state: WatchState::Watching }
    }

    /// Takes one diagnostic line and says what to do about it.
    pub fn on_line(&mut self, line: &[u8]) -> (a: WatchAction)
        ensures
            final(self).matcher == old(self).matcher,
            (final(self).state, a) == watch_step(
                old(self).state,
                classify(line@, old(self).matcher.prompt_markers(), old(self).matcher.rejection_markers()),
            ),
    {
        match self.state {
            WatchState::Watching => {
                let kind = self.matcher.classify_line(line);
                match kind {
                    LineKind::Prompt => {
                        self.state = WatchState::Injected;
                        WatchAction::Inject
                    },
                    LineKind::Rejection => {
                        self.state = WatchState::Rejected;
                        WatchAction::Fail
                    },
                    LineKind::Other => WatchAction::Continue,
                }
            },
            _ => WatchAction::Continue,
        }
    }

    /// Takes the end of the diagnostic stream.
    pub fn on_end(&mut self) -> (a: WatchAction)
        ensures
            final(self).matcher == old(self).matcher,
            old(self).state == WatchState::Watching ==> final(self).state == WatchState::Ended
                && a == WatchAction::NoPrompt,
            old(self).state != WatchState::Watching ==> final(self).state == old(self).state
                && a == WatchAction::Continue,
    {
        match self.state {
            WatchState::Watching => {
                self.state = WatchState::Ended;
                WatchAction::NoPrompt
            },
            _ => WatchAction::Continue,
        }
    }

    /// Whether the watcher has reached a decision or the stream's end.
    pub fn is_finished(&self) -> (r: bool)
        ensures
            r == (self.state != WatchState::Watching),
    {
        match self.state {
            WatchState::Watching => false,
            _ => true,
        }
    }
}

/// The bytes to write into the prompting process's input.
pub fn injection_payload(secret: &str) -> (r: Vec<u8>)
    ensures
        r@ == payload_of(secret.spec_bytes()),
{
    let b = secret.as_bytes();
    let mut out: Vec<u8> = Vec::new();
    let mut i: usize = 0;
    while i < b.len()
        invariant
            i <= b@.len(),
            out@ == b@.take(i as int),
        decreases b@.len() - i,
    {
        out.push(b[i]);
        i = i + 1;
        proof {
            assert(out@ =~= b@.take(i as int));
        }
    }
    out.push(10u8);
    proof {
        assert(b@.take(b@.len() as int) =~= b@);
    }
    out
}

proof fn lemma_run_from_watching(kinds: Seq<LineKind>)
    ensures
        watch_run(WatchState::Watching, kinds).1.len() == kinds.len(),
        first_decisive(kinds) == None::<LineKind> ==> watch_run(WatchState::Watching, kinds).0
            == WatchState::Watching && injections(watch_run(WatchState::Watching, kinds).1) == 0,
        first_decisive(kinds) == Some(LineKind::Prompt) ==> watch_run(
            WatchState::Watching,
            kinds,
        ).0 == WatchState::Injected && injections(watch_run(WatchState::Watching, kinds).1) == 1,
        first_decisive(kinds) == Some(LineKind::Rejection) ==> watch_run(
            WatchState::Watching,
            kinds,
        ).0 == WatchState::Rejected && injections(watch_run(WatchState::Watching, kinds).1) == 0
            && watch_run(WatchState::Watching, kinds).1.contains(WatchAction::Fail),
    decreases kinds.len(),
{
    if kinds.len() > 0 {
        let pre = kinds.drop_last();
        lemma_run_from_watching(pre);
        let (mid, acts) = watch_run(WatchState::Watching, pre);
        let (next, a) = watch_step(mid, kinds.last());
        assert(watch_run(WatchState::Watching, kinds).1 == acts.push(a));
        assert(acts.push(a).drop_last() =~= acts);
        if first_decisive(pre) == Some(LineKind::Rejection) {
            let i = choose|i: int| 0 <= i < acts.len() && acts[i] == WatchAction::Fail;
            assert(acts.push(a)[i] == WatchAction::Fail);
        }
        if first_decisive(pre) == None::<LineKind> && kinds.last() == LineKind::Rejection {
            assert(acts.push(a)[acts.len() as int] == WatchAction::Fail);
        }
    }
}

/// However many lines carry a prompt marker, the secret is written at most
/// once; it is written exactly once when a prompt comes before any rejection.
pub proof fn lemma_single_injection(m: PromptMatcher, lines: Seq<Seq<u8>>)
    ensures
        injections(watch_run(WatchState::Watching, line_kinds(m, lines)).1) <= 1,
        injections(watch_run(WatchState::Watching, line_kinds(m, lines)).1) == 1
            <==> first_decisive(line_kinds(m, lines)) == Some(LineKind::Prompt),
{
    let kinds = line_kinds(m, lines);
    lemma_run_from_watching(kinds);
    match first_decisive(kinds) {
        Some(k) => {
            if k == LineKind::Other {
                lemma_decisive_not_other(kinds);
            }
        },
        None => {},
    }
}

proof fn lemma_decisive_not_other(kinds: Seq<LineKind>)
    ensures
        first_decisive(kinds) != Some(LineKind::Other),
    decreases kinds.len(),
{
    if kinds.len() > 0 {
        lemma_decisive_not_other(kinds.drop_last());
    }
}

/// A rejection seen before any prompt makes the watcher fail and write
/// nothing, whatever lines follow.
pub proof fn lemma_rejection_writes_nothing(m: PromptMatcher, lines: Seq<Seq<u8>>)
    requires
        first_decisive(line_kinds(m, lines)) == Some(LineKind::Rejection),
    ensures
        injections(watch_run(WatchState::Watching, line_kinds(m, lines)).1) == 0,
        watch_run(WatchState::Watching, line_kinds(m, lines)).1.contains(WatchAction::Fail),
        watch_run(WatchState::Watching, line_kinds(m, lines)).0 == WatchState::Rejected,
{
    lemma_run_from_watching(line_kinds(m, lines));
}

/// The foreground's bounded wait for the watcher: it polls every `interval`
/// time units and gives up waiting once `deadline` units have passed.
#[derive(Debug, Clone, Copy, PartialEq, Eq, Structural)]
pub struct PromptWait {
    pub deadline: u32,
    pub interval: u32,
    pub elapsed: u64,
}

/// What the foreground does after a poll.
#[derive(Debug, Clone, Copy, PartialEq, Eq, Structural)]
pub enum WaitDecision {
    /// Sleep one interval, then poll again.
    KeepWaiting,
    /// Stop waiting for the watcher and go on.
    Proceed,
}

/// One poll: go on once the watcher has finished or the deadline has passed.
pub open spec fn poll_step(w: PromptWait, finished: bool) -> (PromptWait, WaitDecision) {
    if finished || w.elapsed >= w.deadline {
        (w, WaitDecision::Proceed)
    } else {
        (PromptWait { elapsed: (w.elapsed + w.interval) as u64, ..w }, WaitDecision::KeepWaiting)
    }
}

/// The wait after `n` polls at which the watcher had not finished.
pub open spec fn polls_unfinished(w: PromptWait, n: nat) -> PromptWait
    decreases n,
{
    if n == 0 {
        w
    } else {
        poll_step(polls_unfinished(w, (n - 1) as nat), false).0
    }
}

/// The number of intervals slept before the wait gives up.
pub open spec fn wait_polls(deadline: u32, interval: u32) -> nat {
    ((deadline + interval - 1) / (interval as int)) as nat
}

impl PromptWait {
    pub open spec fn wf(&self) -> bool {
        self.interval > 0 && self.elapsed < self.deadline + self.interval
    }

    pub open spec fn start(deadline: u32, interval: u32) -> PromptWait {
        PromptWait { deadline, interval, elapsed: 0 }
    }

    /// A wait that has not slept yet; `interval` is the time between polls.
    pub fn new(deadline: u32, interval: u32) -> (r: PromptWait)
        requires
            interval > 0,
        ensures
            r == PromptWait::start(deadline, interval),
            r.wf(),
    {
        PromptWait { deadline, interval, elapsed: 0 }
    }

    /// Polls once, told whether the watcher has finished.
    pub fn poll(&mut self, watcher_finished: bool) -> (d: WaitDecision)
        requires
            old(self).wf(),
        ensures
            final(self).wf(),
            (*final(self), d) == poll_step(*old(self), watcher_finished),
    {
        if watcher_finished || self.elapsed >= self.deadline as u64 {
            WaitDecision::Proceed
        } else {
            self.elapsed = self.elapsed + self.interval as u64;
            WaitDecision::KeepWaiting
        }
    }
}

proof fn lemma_elapsed_after(deadline: u32, interval: u32, n: nat)
    requires
        interval > 0,
        forall|j: nat| j < n ==> #[trigger] (j * interval) < deadline,
    ensures
        polls_unfinished(PromptWait::start(deadline, interval), n).elapsed == n * interval,
        polls_unfinished(PromptWait::start(deadline, interval), n).deadline == deadline,
        polls_unfinished(PromptWait::start(deadline, interval), n).interval == interval,
    decreases n,
{
    if n > 0 {
        let p = (n - 1) as nat;
        lemma_elapsed_after(deadline, interval, p);
        assert(p * interval < deadline);
        assert(n * interval == p * interval + interval) by (nonlinear_arith)
            requires
                n == p + 1,
        ;
    }
}

/// With a watcher that never finishes, the foreground keeps waiting while
/// less than `deadline` has passed and goes on at the first poll after it:
/// never before the deadline and less than one interval after it.
pub proof fn lemma_wait_is_bounded(deadline: u32, interval: u32)
    requires
        interval > 0,
    ensures
        forall|j: nat|
            j < wait_polls(deadline, interval) ==> poll_step(
                #[trigger] polls_unfinished(PromptWait::start(deadline, interval), j),
                false,
            ).1 == WaitDecision::KeepWaiting,
        poll_step(
            polls_unfinished(PromptWait::start(deadline, interval), wait_polls(deadline, interval)),
            false,
        ).1 == WaitDecision::Proceed,
        polls_unfinished(
            PromptWait::start(deadline, interval),
            wait_polls(deadline, interval),
        ).elapsed >= deadline,
        polls_unfinished(
            PromptWait::start(deadline, interval),
            wait_polls(deadline, interval),
        ).elapsed < deadline + interval,
{
    let d = deadline as int;
    let i = interval as int;
    let x = d + i - 1;
    let k = wait_polls(deadline, interval);
    lemma_fundamental_div_mod(x, i);
    assert(0 <= x % i < i);
    assert(k == x / i);
    assert(i * k == x - x % i);
    assert(k * i >= d && k * i < d + i) by (nonlinear_arith)
        requires
            i * k == x - x % i,
            0 <= x % i < i,
            x == d + i - 1,
    ;
    assert forall|j: nat| j < k implies #[trigger] (j * interval) < deadline by {
        assert(j * i <= (k - 1) * i) by (nonlinear_arith)
            requires
                j < k,
                i > 0,
        ;
        assert((k - 1) * i == k * i - i) by (nonlinear_arith);
    }
    lemma_elapsed_after(deadline, interval, k);
    assert forall|j: nat| j < k implies poll_step(
        #[trigger] polls_unfinished(PromptWait::start(deadline, interval), j),
        false,
    ).1 == WaitDecision::KeepWaiting by {
        assert forall|q: nat| q < j implies #[trigger] (q * interval) < deadline by {
            assert(q < k);
        }
        lemma_elapsed_after(deadline, interval, j);
        assert(j * interval < deadline);
    }
}

} // verus!
