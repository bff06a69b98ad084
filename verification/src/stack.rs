//! Lifecycle of an external infrastructure stack.
//!
//! Provisioning is asynchronous and occasionally flaky, so the lifecycle
//! is split into three independent primitives: issue a creation request,
//! issue a deletion request (idempotent: deleting an absent stack
//! succeeds), and poll the stack's status against a deadline.  The
//! decisions are made here, as a state machine over observations; the
//! caller performs the queries and the sleeps.

use vstd::prelude::*;

verus! {

/// The status of a stack as the provider reports it.
#[derive(Debug, Clone, Copy, PartialEq, Eq, Structural)]
pub enum StackStatus {
    CreateInProgress,
    CreateComplete,
    CreateFailed,
    DeleteInProgress,
    DeleteComplete,
    DeleteFailed,
}

/// A named stack together with its last known status.
#[derive(Debug, PartialEq, Clone)]
pub struct Stack {
    pub name: String,
    pub status: StackStatus,
}

/// Why a stack operation failed.
#[derive(Debug, PartialEq, Clone)]
pub enum StackError {
    /// The provider rejected a request; carries its message.  Never
    /// retried by this layer.
    Provider(String),
    /// The deadline passed while polling; carries the last status seen.
    TimedOut(Option<StackStatus>),
}

/// What one status query came back with.
#[derive(Debug, Clone, PartialEq, Eq, Structural)]
pub enum Observation {
    /// The provider reported this status.
    Status(StackStatus),
    /// The provider knows no stack of this name.
    NotFound,
    /// The query itself failed; transient, to be retried.
    QueryError,
}

/// What the poller asks its caller to do next.
#[derive(Debug, PartialEq, Clone)]
pub enum PollStep {
    /// The target status was reached: here is the stack.
    Done(Stack),
    /// Polling failed; stop.
    Fail(StackError),
    /// Sleep this many milliseconds, query once more, and observe again.
    Sleep(u64),
}

/// Turns the provider's answer to a creation request into the created
/// stack: accepted requests return immediately with the stack still in
/// progress; rejections surface the provider's message.
pub fn create_outcome(name: String, response: Result<(), String>) -> (r: Result<Stack, StackError>)
    ensures
        response matches Ok(_) ==> (r matches Ok(s) && s.name@ == name@ && s.status
            == StackStatus::CreateInProgress),
        response matches Err(m) ==> r == Err::<Stack, StackError>(StackError::Provider(m)),
{
    match response {
        Ok(_) => Ok(Stack { name, status: StackStatus::CreateInProgress }),
        Err(m) => Err(StackError::Provider(m)),
    }
}

/// What the provider answered to a deletion request.
#[derive(Debug, PartialEq, Clone)]
pub enum DeleteResponse {
    /// Deletion is under way.
    Accepted,
    /// No stack of that name exists.
    NotFound,
    /// The request was rejected; carries the provider's message.
    Refused(String),
}

/// Turns the provider's answer to a deletion request into the caller's
/// result.  Deletion is idempotent: an absent stack counts as success,
/// never as an error.
pub fn delete_outcome(response: DeleteResponse) -> (r: Result<(), StackError>)
    ensures
        response is Accepted ==> r is Ok,
        response is NotFound ==> r is Ok,
        response matches DeleteResponse::Refused(m) ==> r == Err::<(), StackError>(StackError::Provider(m)),
{
    match response {
        DeleteResponse::Accepted => Ok(()),
        DeleteResponse::NotFound => Ok(()),
        DeleteResponse::Refused(m) => Err(StackError::Provider(m)),
    }
}

/// Polls one stack toward a target status against a deadline.  Feed it
/// one [`Observation`] per query; it answers with the next step.
#[derive(Debug, PartialEq, Clone)]
pub struct Poller {
    pub name: String,
    /// The status polled for.
    pub target: StackStatus,
    pub timeout_millis: u64,
    pub interval_millis: u64,
    /// Sleep time accumulated so far.
    pub elapsed_millis: u64,
    /// The last status the provider reported, if any.
    pub last_observed: Option<StackStatus>,
}

impl Poller {
    /// The poller after taking `obs` into account.
    pub open spec fn spec_next(self, obs: Observation) -> Poller {
        Poller {
            elapsed_millis: if self.elapsed_millis + self.interval_millis > u64::MAX {
                u64::MAX
            } else {
                (self.elapsed_millis + self.interval_millis) as u64
            },
            last_observed: match obs {
                Observation::Status(st) => Some(st),
                _ => self.last_observed,
            },
            ..self
        }
    }

    /// The step the poller answers to `obs`: success on the target
    /// status — or, when polling for a deletion, on a missing stack;
    /// timeout once the accumulated sleep reaches the deadline; one more
    /// sleep otherwise.  A failed query is retried, not fatal.
    pub open spec fn spec_step(self, obs: Observation) -> PollStep {
        if obs == Observation::Status(self.target) {
            PollStep::Done(Stack { name: self.name, status: self.target })
        } else if obs is NotFound && self.target is DeleteComplete {
            PollStep::Done(Stack { name: self.name, status: StackStatus::DeleteComplete })
        } else {
            let last = match obs {
                Observation::Status(st) => Some(st),
                _ => self.last_observed,
            };
            if self.elapsed_millis >= self.timeout_millis {
                PollStep::Fail(StackError::TimedOut(last))
            } else {
                PollStep::Sleep(self.interval_millis)
            }
        }
    }

    /// A fresh poller: nothing observed, no time spent.
    pub fn new(name: String, target: StackStatus, timeout_millis: u64, interval_millis: u64) -> (r:
        Poller)
        ensures
            r.name@ == name@,
            r.target == target,
            r.timeout_millis == timeout_millis,
            r.interval_millis == interval_millis,
            r.elapsed_millis == 0,
            r.last_observed is None,
    {
        Poller { name, target, timeout_millis, interval_millis, elapsed_millis: 0, last_observed: None }
    }

    /// Takes one observation: decides the next step and advances the
    /// poller's clock and memory.
    pub fn observe(&mut self, obs: Observation) -> (step: PollStep)
        ensures
            step == old(self).spec_step(obs),
            *final(self) == old(self).spec_next(obs),
    {
        let step: PollStep = if obs == Observation::Status(self.target) {
            PollStep::Done(Stack { name: self.name.clone(), status: self.target })
        } else if obs == Observation::NotFound && self.target == StackStatus::DeleteComplete {
            PollStep::Done(Stack { name: self.name.clone(), status: StackStatus::DeleteComplete })
        } else {
            let last = match obs {
                Observation::Status(st) => Some(st),
                _ => self.last_observed,
            };
            if self.elapsed_millis >= self.timeout_millis {
                PollStep::Fail(StackError::TimedOut(last))
            } else {
                PollStep::Sleep(self.interval_millis)
            }
        };
        if let Observation::Status(st) = obs {
            self.last_observed = Some(st);
        }
        self.elapsed_millis = self.elapsed_millis.saturating_add(self.interval_millis);
        step
    }
}

/// Where a whole polling run ends up.
pub enum PollOutcome {
    /// The observations ran out with the deadline not yet reached.
    Pending(Poller),
    /// The target status was reached.
    Done(Stack),
    /// Polling failed.
    Fail(StackError),
}

/// Folds a sequence of observations through the poller, one
/// [`Poller::spec_step`] at a time.
pub open spec fn run_poll(p: Poller, obs: Seq<Observation>) -> PollOutcome
    decreases obs.len(),
{
    if obs.len() == 0 {
        PollOutcome::Pending(p)
    } else {
        match p.spec_step(obs[0]) {
            PollStep::Done(s) => PollOutcome::Done(s),
            PollStep::Fail(e) => PollOutcome::Fail(e),
            PollStep::Sleep(_) => run_poll(p.spec_next(obs[0]), obs.skip(1)),
        }
    }
}

/// A stack that reaches the target strictly before the deadline is
/// returned as completed: if every observation but the last reports a
/// non-target status, the deadline is not hit on the way, and the last
/// observation reports the target, the run ends in the target stack.
pub proof fn lemma_poll_reaches_target(p: Poller, obs: Seq<Observation>, seen: StackStatus)
    requires
        obs.len() >= 1,
        seen != p.target,
        forall|i: int| 0 <= i < obs.len() - 1 ==> obs[i] == Observation::Status(seen),
        obs.last() == Observation::Status(p.target),
        p.elapsed_millis + (obs.len() - 1) * p.interval_millis < p.timeout_millis,
    ensures
        run_poll(p, obs) == PollOutcome::Done(Stack { name: p.name, status: p.target }),
    decreases obs.len(),
{
    let n = obs.len() as int;
    let iv = p.interval_millis as int;
    if obs.len() == 1 {
        assert((n - 1) * iv == 0) by (nonlinear_arith)
            requires
                n == 1,
        ;
    } else {
        assert(obs[0] == Observation::Status(seen));
        assert((n - 1) * iv == iv + (n - 2) * iv && (n - 2) * iv >= 0) by (nonlinear_arith)
            requires
                n >= 2,
                iv >= 0,
        ;
        assert(p.elapsed_millis + p.interval_millis < p.timeout_millis);
        assert(p.spec_step(obs[0]) == PollStep::Sleep(p.interval_millis));
        let p2 = p.spec_next(obs[0]);
        let rest = obs.skip(1);
        assert(rest.last() == obs.last());
        assert(forall|i: int|
            0 <= i < rest.len() - 1 ==> #[trigger] rest[i] == obs[i + 1]);
        assert(p2.elapsed_millis == p.elapsed_millis + p.interval_millis);
        assert(p2.elapsed_millis + (rest.len() - 1) * p2.interval_millis < p2.timeout_millis);
        lemma_poll_reaches_target(p2, rest, seen);
    }
}

/// A stack that never transitions times out: if every observation
/// reports the same non-target status and the accumulated sleep reaches
/// the deadline within the run, the run fails with a timeout carrying
/// that last observed status.
pub proof fn lemma_poll_times_out(p: Poller, obs: Seq<Observation>, seen: StackStatus)
    requires
        obs.len() >= 1,
        seen != p.target,
        forall|i: int| 0 <= i < obs.len() ==> obs[i] == Observation::Status(seen),
        p.elapsed_millis + (obs.len() - 1) * p.interval_millis >= p.timeout_millis,
        p.elapsed_millis + obs.len() * p.interval_millis <= u64::MAX,
    ensures
        run_poll(p, obs) == PollOutcome::Fail(StackError::TimedOut(Some(seen))),
    decreases obs.len(),
{
    assert(obs[0] == Observation::Status(seen));
    let n = obs.len() as int;
    let iv = p.interval_millis as int;
    if p.elapsed_millis >= p.timeout_millis {
        assert(p.spec_step(obs[0]) == PollStep::Fail(StackError::TimedOut(Some(seen))));
    } else {
        assert(obs.len() >= 2) by {
            if obs.len() == 1 {
                assert((n - 1) * iv == 0) by (nonlinear_arith)
                    requires
                        n == 1,
                ;
            }
        }
        assert((n - 1) * iv == iv + (n - 2) * iv && n * iv == iv + (n - 1) * iv && (n - 1) * iv
            >= 0) by (nonlinear_arith)
            requires
                n >= 2,
                iv >= 0,
        ;
        assert(p.spec_step(obs[0]) == PollStep::Sleep(p.interval_millis));
        let p2 = p.spec_next(obs[0]);
        let rest = obs.skip(1);
        assert(forall|i: int| 0 <= i < rest.len() ==> #[trigger] rest[i] == obs[i + 1]);
        assert(p2.elapsed_millis == p.elapsed_millis + p.interval_millis);
        lemma_poll_times_out(p2, rest, seen);
    }
}

} // verus!
