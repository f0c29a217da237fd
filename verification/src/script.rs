//! The calls that creating an endpoint and changing its timing mode make on the
//! underlying socket, as a script: which call comes next, and what the whole
//! operation reports once the calls are through or one of them has failed.
//!
//! The script decides; its user performs each call and tells the script how it
//! went.

use vstd::prelude::*;
use crate::address::Address;
use crate::error::{Failure, TransportError};
use crate::timing::Timeout;

verus! {

/// One call on the underlying socket.
#[derive(Clone, Copy, Debug, PartialEq, Eq, Structural)]
pub enum Call {
    /// Create an IPv4 datagram socket.
    Open,
    /// Switch the reuse of local addresses on or off.
    ReuseAddress(bool),
    /// Bind the socket to an address.
    Bind(Address),
    /// Switch non-blocking operation on or off.
    SetNonblocking(bool),
    /// Limit the time that a blocking receive waits.
    SetReadTimeout(Timeout),
}

/// What a script is to achieve.
#[derive(Clone, Copy, Debug, PartialEq, Eq, Structural)]
pub enum Goal {
    /// A new endpoint bound to the address.
    Bind(Address),
    /// The timing mode that the request for a receive timeout selects.
    SetMode(Option<Timeout>),
}

impl Goal {
    /// The calls that achieve the goal, in the order in which they are made.
    ///
    /// An endpoint is bound with the reuse of local addresses switched on, and
    /// starts out non-blocking. Blocking mode switches non-blocking operation
    /// off before it sets the time limit; non-blocking mode leaves the time
    /// limit alone.
    pub open spec fn calls(self) -> Seq<Call> {
        match self {
            Goal::Bind(addr) => seq![
                Call::Open,
                Call::ReuseAddress(true),
                Call::Bind(addr),
                Call::SetNonblocking(true),
            ],
            Goal::SetMode(None) => seq![Call::SetNonblocking(true)],
            Goal::SetMode(Some(limit)) => seq![
                Call::SetNonblocking(false),
                Call::SetReadTimeout(limit),
            ],
        }
    }

    /// What the operation reports when one of its calls fails.
    pub open spec fn report(self, failure: Failure) -> TransportError {
        match self {
            Goal::Bind(_) => TransportError::of_bind(failure),
            Goal::SetMode(_) => TransportError::of_mode_change(failure),
        }
    }
}

/// How far a script has come: its goal, the number of calls that succeeded,
/// and the failure that ended it, if one did.
pub struct Progress {
    pub goal: Goal,
    pub done: nat,
    pub failure: Option<Failure>,
}

impl Progress {
    /// A script for `goal` before its first call.
    pub open spec fn start(goal: Goal) -> Progress {
        Progress { goal, done: 0, failure: None }
    }

    /// The call to make next; none once a call has failed or all have
    /// succeeded.
    pub open spec fn pending(self) -> Option<Call> {
        if self.failure is None && self.done < self.goal.calls().len() {
            Some(self.goal.calls()[self.done as int])
        } else {
            None
        }
    }

    /// The script after the pending call went as `outcome` says. Where no
    /// call is pending, nothing changes.
    pub open spec fn after(self, outcome: Result<(), Failure>) -> Progress {
        if self.pending() is None {
            self
        } else {
            match outcome {
                Ok(_) => Progress { done: self.done + 1, ..self },
                Err(failure) => Progress { failure: Some(failure), ..self },
            }
        }
    }

    /// What the whole operation reports: nothing while a call is pending,
    /// success once every call has succeeded, and the report of the failure
    /// once a call has failed.
    pub open spec fn outcome(self) -> Option<Result<(), TransportError>> {
        match self.failure {
            Some(failure) => Some(Err(self.goal.report(failure))),
            None => if self.done < self.goal.calls().len() {
                None
            } else {
                Some(Ok(()))
            },
        }
    }

    /// The script after a run of calls went as `outcomes` say, one after the
    /// other.
    pub open spec fn after_all(self, outcomes: Seq<Result<(), Failure>>) -> Progress
        decreases outcomes.len(),
    {
        if outcomes.len() == 0 {
            self
        } else {
            self.after(outcomes[0]).after_all(outcomes.skip(1))
        }
    }
}

/// A script in progress.
#[derive(Debug)]
pub struct Script {
    goal: Goal,
    done: usize,
    failure: Option<Failure>,
}

impl View for Script {
    type V = Progress;

    closed spec fn view(&self) -> Progress {
        Progress { goal: self.goal, done: self.done as nat, failure: self.failure }
    }
}

impl Script {
    #[verifier::type_invariant]
    spec fn well_formed(self) -> bool {
        self.done <= self.goal.calls().len()
    }

    /// The script that creates an endpoint bound to `addr`.
    pub fn bind(addr: Address) -> (r: Script)
        ensures
            r@ == Progress::start(Goal::Bind(addr)),
    {
        Script { goal: Goal::Bind(addr), done: 0, failure: None }
    }

    /// The script that puts an endpoint into the mode that `duration`
    /// selects.
    pub fn set_mode(duration: Option<Timeout>) -> (r: Script)
        ensures
            r@ == Progress::start(Goal::SetMode(duration)),
    {
        Script { goal: Goal::SetMode(duration), done: 0, failure: None }
    }

    /// The call to make next.
    pub fn pending(&self) -> (r: Option<Call>)
        ensures
            r == self@.pending(),
    {
        if self.failure.is_some() {
            return None;
        }
        match self.goal {
            Goal::Bind(addr) => {
                if self.done == 0 {
                    Some(Call::Open)
                } else if self.done == 1 {
                    Some(Call::ReuseAddress(true))
                } else if self.done == 2 {
                    Some(Call::Bind(addr))
                } else if self.done == 3 {
                    Some(Call::SetNonblocking(true))
                } else {
                    None
                }
            },
            Goal::SetMode(None) => {
                if self.done == 0 {
                    Some(Call::SetNonblocking(true))
                } else {
                    None
                }
            },
            Goal::SetMode(Some(limit)) => {
                if self.done == 0 {
                    Some(Call::SetNonblocking(false))
                } else if self.done == 1 {
                    Some(Call::SetReadTimeout(limit))
                } else {
                    None
                }
            },
        }
    }

    /// Takes note of how the pending call went.
    pub fn record(&mut self, outcome: Result<(), Failure>)
        ensures
            final(self)@ == old(self)@.after(outcome),
    {
        proof {
            use_type_invariant(&*self);
        }
        if self.pending().is_some() {
            match outcome {
                Ok(_) => {
                    self.done = self.done + 1;
                },
                Err(failure) => {
                    self.failure = Some(failure);
                },
            }
        }
    }

    /// What the whole operation reports.
    pub fn outcome(&self) -> (r: Option<Result<(), TransportError>>)
        ensures
            r == self@.outcome(),
    {
        match self.failure {
            Some(failure) => match self.goal {
                Goal::Bind(_) => Some(Err(TransportError::on_bind(failure))),
                Goal::SetMode(_) => Some(Err(TransportError::on_mode_change(failure))),
            },
            None => if self.pending().is_some() {
                None
            } else {
                Some(Ok(()))
            },
        }
    }
}

/// A run of `n` calls that all succeeded.
pub open spec fn successes(n: nat) -> Seq<Result<(), Failure>> {
    Seq::new(n, |i: int| Ok(()))
}

proof fn lemma_after_successes(p: Progress, n: nat)
    requires
        p.failure is None,
        p.done + n <= p.goal.calls().len(),
    ensures
        p.after_all(successes(n)) == (Progress { done: p.done + n, ..p }),
    decreases n,
{
    if n > 0 {
        assert(successes(n).skip(1) =~= successes((n - 1) as nat));
        lemma_after_successes(p.after(Ok(())), (n - 1) as nat);
    }
}

proof fn lemma_after_run_in_two(p: Progress, first: Seq<Result<(), Failure>>, rest: Seq<Result<(), Failure>>)
    ensures
        p.after_all(first + rest) == p.after_all(first).after_all(rest),
    decreases first.len(),
{
    if first.len() == 0 {
        assert(first + rest =~= rest);
    } else {
        assert((first + rest).skip(1) =~= first.skip(1) + rest);
        lemma_after_run_in_two(p.after(first[0]), first.skip(1), rest);
    }
}

proof fn lemma_ended_script_stays(p: Progress, outcomes: Seq<Result<(), Failure>>)
    requires
        p.pending() is None,
    ensures
        p.after_all(outcomes) == p,
    decreases outcomes.len(),
{
    if outcomes.len() > 0 {
        lemma_ended_script_stays(p, outcomes.skip(1));
    }
}

/// At every point a script has either a call to make next or a report of the
/// whole operation, never both and never neither.
pub proof fn law_script_pends_or_reports(p: Progress)
    ensures
        p.pending() is Some <==> p.outcome() is None,
{
}

/// A script makes its calls one by one in their order, each after the one
/// before it succeeded, and reports success after the last of them and not
/// before: an operation that has not made all its calls has no result yet.
pub proof fn law_script_runs_in_order(goal: Goal, n: nat)
    requires
        n <= goal.calls().len(),
    ensures
        ({
            let p = Progress::start(goal).after_all(successes(n));
            &&& p == (Progress { goal, done: n, failure: None })
            &&& n < goal.calls().len() ==> p.pending() == Some(goal.calls()[n as int]) && p.outcome() is None
            &&& n == goal.calls().len() ==> p.pending() is None && p.outcome() == Some(Ok::<(), TransportError>(()))
        }),
{
    lemma_after_successes(Progress::start(goal), n);
}

/// The first call that fails ends the script. The operation reports that
/// failure under the heading of its goal, and whatever is recorded later
/// changes nothing: no call is made again and none of the calls after it is
/// made at all.
pub proof fn law_first_failure_ends_script(
    goal: Goal,
    n: nat,
    failure: Failure,
    later: Seq<Result<(), Failure>>,
)
    requires
        n < goal.calls().len(),
    ensures
        ({
            let p = Progress::start(goal).after_all(successes(n).push(Err(failure)) + later);
            &&& p == (Progress { goal, done: n, failure: Some(failure) })
            &&& p.pending() is None
            &&& p.outcome() == Some(Err::<(), TransportError>(goal.report(failure)))
        }),
{
    let start = Progress::start(goal);
    let failed: Seq<Result<(), Failure>> = seq![Err(failure)];
    assert(successes(n).push(Err(failure)) =~= successes(n) + failed);
    lemma_after_run_in_two(start, successes(n) + failed, later);
    lemma_after_run_in_two(start, successes(n), failed);
    lemma_after_successes(start, n);
    let reached = start.after_all(successes(n));
    assert(failed.skip(1) =~= Seq::<Result<(), Failure>>::empty());
    assert(reached.after_all(failed) == reached.after(Err(failure)).after_all(failed.skip(1)));
    lemma_ended_script_stays(reached.after(Err(failure)), later);
}

proof fn lemma_progress_goal_is_kept(p: Progress, outcomes: Seq<Result<(), Failure>>)
    ensures
        p.after_all(outcomes).goal == p.goal,
    decreases outcomes.len(),
{
    if outcomes.len() > 0 {
        lemma_progress_goal_is_kept(p.after(outcomes[0]), outcomes.skip(1));
    }
}

proof fn lemma_progress_counts_successes(p: Progress, outcomes: Seq<Result<(), Failure>>)
    requires
        p.after_all(outcomes).failure is None,
    ensures
        p.failure is None,
        p.done <= p.after_all(outcomes).done <= p.done + outcomes.len(),
        forall|i: int| 0 <= i < p.after_all(outcomes).done - p.done ==> (#[trigger] outcomes[i]) is Ok,
    decreases outcomes.len(),
{
    if outcomes.len() > 0 {
        let next = p.after(outcomes[0]);
        let rest = outcomes.skip(1);
        if next.pending() is None {
            lemma_ended_script_stays(next, rest);
        }
        lemma_progress_counts_successes(next, rest);
        assert forall|i: int| 0 <= i < p.after_all(outcomes).done - p.done implies (
        #[trigger] outcomes[i]) is Ok by {
            if i > 0 {
                assert(outcomes[i] == rest[i - 1]);
            }
        }
    }
}

/// No call is made before its time. Whatever has been recorded, a call is
/// pending only if every call before it in the script was made and succeeded:
/// an endpoint is bound only after the reuse of local addresses was switched
/// on, it is switched to non-blocking operation only once it is bound, and a
/// time limit is set only after blocking operation was switched on.
pub proof fn law_calls_follow_in_order(goal: Goal, outcomes: Seq<Result<(), Failure>>)
    requires
        Progress::start(goal).after_all(outcomes).pending() is Some,
    ensures
        ({
            let p = Progress::start(goal).after_all(outcomes);
            &&& p.done < goal.calls().len()
            &&& p.pending() == Some(goal.calls()[p.done as int])
            &&& p.done <= outcomes.len()
            &&& forall|i: int| 0 <= i < p.done ==> (#[trigger] outcomes[i]) is Ok
        }),
{
    lemma_progress_goal_is_kept(Progress::start(goal), outcomes);
    lemma_progress_counts_successes(Progress::start(goal), outcomes);
}

} // verus!
