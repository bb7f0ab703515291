use crate::error::{AttemptError, SessionError};
use vstd::prelude::*;

verus! {

/// A way of obtaining an authenticated session.
#[derive(Debug, Clone, Copy, PartialEq, Eq, Structural)]
pub enum AuthenticationStrategy {
    /// The in-process protocol library.
    NativeLibrary,
    /// The first credential-passing helper executable.
    HelperA,
    /// The second credential-passing helper executable.
    HelperB,
    /// A spawned client whose password prompt is answered by the watcher.
    InteractiveProcess,
}

/// The strategies to try, in order, given what this host offers.
pub open spec fn plan_for(native: bool, helper_a: bool, helper_b: bool) -> Seq<
    AuthenticationStrategy,
> {
    if native {
        seq![AuthenticationStrategy::NativeLibrary]
    } else {
        (if helper_a {
            seq![AuthenticationStrategy::HelperA]
        } else {
            seq![]
        }) + (if helper_b {
            seq![AuthenticationStrategy::HelperB]
        } else {
            seq![]
        }) + seq![AuthenticationStrategy::InteractiveProcess]
    }
}

/// What the chain asks its owner to do next.
#[derive(Debug, Clone, PartialEq, Eq)]
pub enum ChainAction {
    /// Run this strategy and report its outcome.
    Attempt(AuthenticationStrategy),
    /// The session is established by this strategy.
    Connected(AuthenticationStrategy),
    /// The chain is over and failed.
    Fail(SessionError),
}

/// The decision after the attempt at `pos` of `plan` ended with `outcome`.
/// A native failure and an explicit rejection are final; other failures
/// move on to the next strategy, and after the last one the chain is
/// exhausted.
pub open spec fn chain_decide(
    plan: Seq<AuthenticationStrategy>,
    pos: int,
    outcome: Result<(), AttemptError>,
) -> ChainAction {
    match outcome {
        Ok(_) => ChainAction::Connected(plan[pos]),
        Err(e) => if plan[pos] == AuthenticationStrategy::NativeLibrary {
            ChainAction::Fail(e.spec_to_session_error())
        } else if e == AttemptError::AuthRejected {
            ChainAction::Fail(SessionError::AuthRejected)
        } else if pos + 1 < plan.len() {
            ChainAction::Attempt(plan[pos + 1])
        } else {
            ChainAction::Fail(SessionError::AuthExhausted(e))
        },
    }
}

/// The strategy chain of one operation: which strategy runs now and whether
/// the chain is over.
#[derive(Debug, Clone)]
pub struct StrategyChain {
    pub plan: Vec<AuthenticationStrategy>,
    pub pos: usize,
    pub finished: bool,
}

impl StrategyChain {
    pub open spec fn wf(&self) -> bool {
        self.pos < self.plan@.len()
    }

    /// The chain for a host where the native library and each helper are
    /// available or not.
    pub fn new(native_available: bool, helper_a_present: bool, helper_b_present: bool) -> (r:
        StrategyChain)
        ensures
            r.wf(),
            r.plan@ == plan_for(native_available, helper_a_present, helper_b_present),
            r.pos == 0,
            !r.finished,
    {
        let mut plan: Vec<AuthenticationStrategy> = Vec::new();
        if native_available {
            plan.push(AuthenticationStrategy::NativeLibrary);
        } else {
            if helper_a_present {
                plan.push(AuthenticationStrategy::HelperA);
            }
            if helper_b_present {
                plan.push(AuthenticationStrategy::HelperB);
            }
            plan.push(AuthenticationStrategy::InteractiveProcess);
        }
        proof {
            assert(plan@ =~= plan_for(native_available, helper_a_present, helper_b_present));
        }
        StrategyChain { plan, pos: 0, finished: false }
    }

    /// The first thing to do: attempt the first strategy of the plan.
    pub fn start(&self) -> (a: ChainAction)
        requires
            self.wf(),
        ensures
            a == ChainAction::Attempt(self.plan@[self.pos as int]),
    {
        ChainAction::Attempt(self.plan[self.pos])
    }

    /// Takes the outcome of the current attempt and says what comes next.
    pub fn on_outcome(&mut self, outcome: Result<(), AttemptError>) -> (a: ChainAction)
        requires
            old(self).wf(),
            !old(self).finished,
        ensures
            final(self).plan@ == old(self).plan@,
            a == chain_decide(old(self).plan@, old(self).pos as int, outcome),
            a is Attempt ==> final(self).pos == old(self).pos + 1 && !final(self).finished
                && final(self).wf(),
            !(a is Attempt) ==> final(self).pos == old(self).pos && final(self).finished,
    {
        let cur = self.plan[self.pos];
        match outcome {
            Ok(_) => {
                self.finished = true;
                ChainAction::Connected(cur)
            },
            Err(e) => {
                if cur == AuthenticationStrategy::NativeLibrary {
                    self.finished = true;
                    ChainAction::Fail(e.to_session_error())
                } else if e == AttemptError::AuthRejected {
                    self.finished = true;
                    ChainAction::Fail(SessionError::AuthRejected)
                } else if self.pos < self.plan.len() - 1 {
                    self.pos = self.pos + 1;
                    ChainAction::Attempt(self.plan[self.pos])
                } else {
                    self.finished = true;
                    ChainAction::Fail(SessionError::AuthExhausted(e))
                }
            },
        }
    }
}

/// A plan never lists a strategy twice, and ends with the interactive
/// strategy unless the native library is there, which then stands alone.
pub proof fn lemma_plan_shape(native: bool, helper_a: bool, helper_b: bool)
    ensures
        plan_for(native, helper_a, helper_b).no_duplicates(),
        plan_for(native, helper_a, helper_b).len() > 0,
        native ==> plan_for(native, helper_a, helper_b) == seq![
            AuthenticationStrategy::NativeLibrary,
        ],
        !native ==> plan_for(native, helper_a, helper_b).last()
            == AuthenticationStrategy::InteractiveProcess,
        !native ==> !plan_for(native, helper_a, helper_b).contains(
            AuthenticationStrategy::NativeLibrary,
        ),
{
    let p = plan_for(native, helper_a, helper_b);
    if !native {
        let a: Seq<AuthenticationStrategy> = if helper_a {
            seq![AuthenticationStrategy::HelperA]
        } else {
            seq![]
        };
        let b: Seq<AuthenticationStrategy> = if helper_b {
            seq![AuthenticationStrategy::HelperB]
        } else {
            seq![]
        };
        assert(p == a + b + seq![AuthenticationStrategy::InteractiveProcess]);
        assert forall|i: int, j: int| 0 <= i < p.len() && 0 <= j < p.len() && i != j implies p[i]
            != p[j] by {
            if helper_a && helper_b {
                assert(p =~= seq![
                    AuthenticationStrategy::HelperA,
                    AuthenticationStrategy::HelperB,
                    AuthenticationStrategy::InteractiveProcess,
                ]);
            } else if helper_a {
                assert(p =~= seq![
                    AuthenticationStrategy::HelperA,
                    AuthenticationStrategy::InteractiveProcess,
                ]);
            } else if helper_b {
                assert(p =~= seq![
                    AuthenticationStrategy::HelperB,
                    AuthenticationStrategy::InteractiveProcess,
                ]);
            } else {
                assert(p =~= seq![AuthenticationStrategy::InteractiveProcess]);
            }
        }
        assert forall|i: int| 0 <= i < p.len() implies p[i]
            != AuthenticationStrategy::NativeLibrary by {
            if i < a.len() {
                assert(p[i] == a[i]);
            } else if i < a.len() + b.len() {
                assert(p[i] == b[i - a.len()]);
            }
        }
    }
}

/// With no native library and no helper, the chain attempts the interactive
/// strategy first, and whatever that attempt ends in, the chain is over:
/// exactly one interactive attempt.
pub proof fn lemma_interactive_only_once(outcome: Result<(), AttemptError>)
    ensures
        plan_for(false, false, false) == seq![AuthenticationStrategy::InteractiveProcess],
        !(chain_decide(plan_for(false, false, false), 0, outcome) is Attempt),
{
    assert(plan_for(false, false, false) =~= seq![AuthenticationStrategy::InteractiveProcess]);
}

} // verus!
