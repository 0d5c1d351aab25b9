//! The retry rule of a single task.
//!
//! A task sends one request, looks at how it ended, and either is done, waits
//! and sends the same request again, or gives up for good. Only contention is
//! retried, and only as often as the policy allows.

use crate::error::ErrorClass;
use crate::error::StoreError;
use vstd::prelude::*;

verus! {

/// How often a contended write is sent again.
pub const WRITE_MAX_RETRIES: u32 = 50;

/// How long a task waits before it sends a contended write again, in
/// milliseconds.
pub const WRITE_BACKOFF_MS: u64 = 100;

/// How often contention is retried, and how long to wait before each retry.
#[derive(Debug, Clone, Copy, PartialEq, Eq, Structural)]
pub struct RetryPolicy {
    pub max_retries: u32,
    pub backoff_ms: u64,
}

/// Why a task gave up: the failure, its class, and the retries spent before it.
#[derive(Debug, Clone)]
pub struct Fatal {
    pub error: StoreError,
    pub class: ErrorClass,
    pub retries: u32,
}

/// What a task does after a request has ended.
#[derive(Debug, Clone)]
pub enum Step {
    /// The request succeeded: the task is done.
    Finished,
    /// Wait this many milliseconds, then send the same request again.
    RetryAfter(u64),
    /// Give up: the whole run ends.
    Abort(Fatal),
}

/// The retry counter of one task.
#[derive(Debug, Clone, Copy, PartialEq, Eq, Structural)]
pub struct RetryState {
    retries: u32,
}

/// The step that follows an outcome, for a task that has retried `retries`
/// times so far.
pub open spec fn decide(policy: RetryPolicy, retries: u32, outcome: Result<(), StoreError>) -> Step {
    match outcome {
        Ok(_) => Step::Finished,
        Err(e) => if e.class() == ErrorClass::Contention && retries < policy.max_retries {
            Step::RetryAfter(policy.backoff_ms)
        } else {
            Step::Abort(Fatal { error: e, class: e.class(), retries })
        },
    }
}

impl RetryPolicy {
    /// The policy of a write task: 50 retries, 100 ms apart.
    pub fn for_writes() -> (p: RetryPolicy)
        ensures
            p == (RetryPolicy { max_retries: WRITE_MAX_RETRIES, backoff_ms: WRITE_BACKOFF_MS }),
    {
        RetryPolicy { max_retries: WRITE_MAX_RETRIES, backoff_ms: WRITE_BACKOFF_MS }
    }

    /// The policy of a read task: the first failure is final.
    pub fn for_reads() -> (p: RetryPolicy)
        ensures
            p == (RetryPolicy { max_retries: 0, backoff_ms: 0 }),
    {
        RetryPolicy { max_retries: 0, backoff_ms: 0 }
    }
}

impl RetryState {
    /// The number of retries so far.
    pub closed spec fn count(&self) -> u32 {
        self.retries
    }

    /// The state of a task that has not retried yet.
    pub fn new() -> (s: RetryState)
        ensures
            s.count() == 0,
    {
        RetryState { retries: 0 }
    }

    /// The number of retries so far.
    pub fn retries(&self) -> (n: u32)
        ensures
            n == self.count(),
    {
        self.retries
    }

    /// Takes the outcome of the request just sent and says what the task does
    /// next. The counter goes up by one exactly when the answer is to retry.
    pub fn on_outcome(&mut self, policy: &RetryPolicy, outcome: Result<(), StoreError>) -> (step: Step)
        ensures
            step == decide(*policy, old(self).count(), outcome),
            final(self).count() == if step is RetryAfter {
                old(self).count() + 1
            } else {
                old(self).count() as int
            },
    {
        match outcome {
            Ok(_) => Step::Finished,
            Err(e) => {
                let class = e.classify();
                if class == ErrorClass::Contention && self.retries < policy.max_retries {
                    self.retries = self.retries + 1;
                    Step::RetryAfter(policy.backoff_ms)
                } else {
                    Step::Abort(Fatal { error: e, class, retries: self.retries })
                }
            },
        }
    }
}

/// How a task fared against the outcomes of its requests, taken in order.
pub struct Run {
    /// The number of requests that the task sent.
    pub requests: nat,
    /// The value of the retry counter when the task stopped.
    pub retries: u32,
    /// The step on which the task ended, or `None` if the outcomes ran out
    /// while it was still retrying.
    pub end: Option<Step>,
}

/// Runs a task that has retried `retries` times against `outcomes`: each
/// outcome answers one request, and the task goes on to the next outcome only
/// when the step is to retry.
pub open spec fn run(policy: RetryPolicy, retries: u32, outcomes: Seq<Result<(), StoreError>>) -> Run
    decreases outcomes.len(),
{
    if outcomes.len() == 0 {
        Run { requests: 0, retries, end: None }
    } else if decide(policy, retries, outcomes[0]) is RetryAfter {
        let rest = run(policy, (retries + 1) as u32, outcomes.drop_first());
        Run { requests: rest.requests + 1, retries: rest.retries, end: rest.end }
    } else {
        Run { requests: 1, retries, end: Some(decide(policy, retries, outcomes[0])) }
    }
}

/// A failure is retried exactly when it is contention and the policy has
/// retries left; any other failure ends the task at once, and so does
/// contention once the retries are spent.
pub proof fn lemma_only_contention_retries(policy: RetryPolicy, retries: u32, error: StoreError)
    ensures
        decide(policy, retries, Err(error)) is RetryAfter <==> error.class() == ErrorClass::Contention
            && retries < policy.max_retries,
        !(decide(policy, retries, Err(error)) is RetryAfter) ==> decide(policy, retries, Err(error))
            == Step::Abort(Fatal { error, class: error.class(), retries }),
        error.class() != ErrorClass::Contention ==> decide(policy, retries, Err(error)) is Abort,
{
}

/// Whatever the outcomes, a task never retries more often than its policy
/// allows, and so never sends more than one request beyond that number. Every
/// request but the one on which it ended was a retry.
pub proof fn lemma_retries_bounded(
    policy: RetryPolicy,
    retries: u32,
    outcomes: Seq<Result<(), StoreError>>,
)
    requires
        retries <= policy.max_retries,
    ensures
        retries <= run(policy, retries, outcomes).retries <= policy.max_retries,
        run(policy, retries, outcomes).requests <= policy.max_retries - retries + 1,
        run(policy, retries, outcomes).requests == run(policy, retries, outcomes).retries - retries + (
        if run(policy, retries, outcomes).end is Some {
            1int
        } else {
            0int
        }),
        run(policy, retries, outcomes).end is Some ==> !(run(policy, retries, outcomes).end->0
            is RetryAfter),
    decreases outcomes.len(),
{
    if outcomes.len() > 0 && decide(policy, retries, outcomes[0]) is RetryAfter {
        lemma_retries_bounded(policy, (retries + 1) as u32, outcomes.drop_first());
    }
}

/// A task settles within one request more than its policy has retries: given
/// that many outcomes, it ends as finished or aborted.
pub proof fn lemma_task_settles(
    policy: RetryPolicy,
    retries: u32,
    outcomes: Seq<Result<(), StoreError>>,
)
    requires
        retries <= policy.max_retries,
        outcomes.len() > policy.max_retries - retries,
    ensures
        run(policy, retries, outcomes).end is Some,
    decreases outcomes.len(),
{
    if decide(policy, retries, outcomes[0]) is RetryAfter {
        lemma_task_settles(policy, (retries + 1) as u32, outcomes.drop_first());
    }
}

/// A write task retries at most 50 times and sends at most 51 requests.
pub proof fn lemma_write_task_bounded(outcomes: Seq<Result<(), StoreError>>)
    ensures
        run(
            RetryPolicy { max_retries: WRITE_MAX_RETRIES, backoff_ms: WRITE_BACKOFF_MS },
            0,
            outcomes,
        ).retries <= 50,
        run(
            RetryPolicy { max_retries: WRITE_MAX_RETRIES, backoff_ms: WRITE_BACKOFF_MS },
            0,
            outcomes,
        ).requests <= 51,
{
    lemma_retries_bounded(
        RetryPolicy { max_retries: WRITE_MAX_RETRIES, backoff_ms: WRITE_BACKOFF_MS },
        0,
        outcomes,
    );
}

/// A read task never retries: it ends on the outcome of its first request.
pub proof fn lemma_read_task_never_retries(outcomes: Seq<Result<(), StoreError>>)
    requires
        outcomes.len() > 0,
    ensures
        run(RetryPolicy { max_retries: 0, backoff_ms: 0 }, 0, outcomes).requests == 1,
        run(RetryPolicy { max_retries: 0, backoff_ms: 0 }, 0, outcomes).end == Some(
            decide(RetryPolicy { max_retries: 0, backoff_ms: 0 }, 0, outcomes[0]),
        ),
{
}

} // verus!
