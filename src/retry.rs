use vstd::prelude::*;
use crate::db::FirestoreDb;
use crate::error::{FirestoreError, FirestoreResult, TransportError};

verus! {

/// Attempts made so far for one page, and the bound on retries.
#[derive(Debug, Clone, Copy, PartialEq, Eq)]
pub struct RetryState {
    pub attempt: usize,
    pub max_retries: usize,
}

/// What to do after one attempt: issue the same request again, or stop with a result.
#[derive(Debug, PartialEq, Eq)]
pub enum RetryDecision<R> {
    Retry(RetryState),
    Finish(FirestoreResult<R>),
}

impl RetryState {
    pub open spec fn wf(self) -> bool {
        self.attempt <= self.max_retries
    }
}

/// Whether an error is a transport failure flagged as transient.
pub open spec fn is_retryable(e: FirestoreError) -> bool {
    e matches FirestoreError::Transport(t) && t.retryable
}

/// The decision after an attempt that gave `outcome`.
pub open spec fn retry_step<R>(st: RetryState, outcome: FirestoreResult<R>) -> RetryDecision<R> {
    match outcome {
        Ok(v) => RetryDecision::Finish(Ok(v)),
        Err(e) => if is_retryable(e) {
            if st.attempt < st.max_retries {
                RetryDecision::Retry(RetryState { attempt: (st.attempt + 1) as usize, ..st })
            } else {
                RetryDecision::Finish(
                    Err(FirestoreError::ExhaustedRetries { retries: st.attempt, last: e->Transport_0 }),
                )
            }
        } else {
            RetryDecision::Finish(Err(e))
        },
    }
}

/// Driving the retry loop from `st` when successive attempts give `outcomes`:
/// the number of attempts made and the final result, `None` if the outcomes
/// ran out first.
pub open spec fn retry_run<R>(st: RetryState, outcomes: Seq<FirestoreResult<R>>) -> (nat, Option<
    FirestoreResult<R>,
>)
    decreases outcomes.len(),
{
    if outcomes.len() == 0 {
        (0, None)
    } else {
        match retry_step(st, outcomes[0]) {
            RetryDecision::Finish(r) => (1, Some(r)),
            RetryDecision::Retry(next) => {
                let rest = retry_run(next, outcomes.drop_first());
                (rest.0 + 1, rest.1)
            },
        }
    }
}

impl RetryState {
    /// The state before the first attempt of a page.
    pub fn new(max_retries: usize) -> (r: Self)
        ensures
            r.attempt == 0,
            r.max_retries == max_retries,
            r.wf(),
    {
        RetryState { attempt: 0, max_retries }
    }

    /// Decides what follows an attempt that gave `outcome`.
    pub fn on_result<R>(self, outcome: FirestoreResult<R>) -> (r: RetryDecision<R>)
        requires
            self.wf(),
        ensures
            r == retry_step(self, outcome),
            r matches RetryDecision::Retry(next) ==> next.wf() && next.attempt == self.attempt + 1,
    {
        match outcome {
            Ok(v) => RetryDecision::Finish(Ok(v)),
            Err(FirestoreError::Transport(t)) => {
                if !t.retryable {
                    RetryDecision::Finish(Err(FirestoreError::Transport(t)))
                } else if self.attempt < self.max_retries {
                    RetryDecision::Retry(RetryState { attempt: self.attempt + 1, ..self })
                } else {
                    RetryDecision::Finish(
                        Err(FirestoreError::ExhaustedRetries { retries: self.attempt, last: t }),
                    )
                }
            },
            Err(e) => RetryDecision::Finish(Err(e)),
        }
    }
}

impl FirestoreDb {
    /// The retry state each page fetch starts from.
    pub fn retry_state(&self) -> (r: RetryState)
        ensures
            r.attempt == 0,
            r.max_retries == self.max_retries,
    {
        RetryState::new(self.max_retries)
    }
}

/// `k` retryable failures from a state with room for them move the attempt
/// counter by `k` and leave the rest of the outcomes to decide.
proof fn lemma_retryable_prefix<R>(st: RetryState, outcomes: Seq<FirestoreResult<R>>, k: nat)
    requires
        st.wf(),
        st.attempt + k <= st.max_retries,
        k <= outcomes.len(),
        forall|i: int| 0 <= i < k ==> is_retryable(#[trigger] outcomes[i]->Err_0) && outcomes[i] is Err,
    ensures
        ({
            let after = RetryState { attempt: (st.attempt + k) as usize, ..st };
            let rest = retry_run(after, outcomes.subrange(k as int, outcomes.len() as int));
            retry_run(st, outcomes) == (rest.0 + k, rest.1)
        }),
    decreases k,
{
    if k == 0 {
        assert(outcomes.subrange(0, outcomes.len() as int) =~= outcomes);
    } else {
        let next = RetryState { attempt: (st.attempt + 1) as usize, ..st };
        assert(is_retryable(outcomes[0]->Err_0));
        let tail = outcomes.drop_first();
        assert forall|i: int| 0 <= i < k - 1 implies is_retryable(#[trigger] tail[i]->Err_0) && tail[i] is Err by {
            assert(tail[i] == outcomes[i + 1]);
        }
        lemma_retryable_prefix(next, tail, (k - 1) as nat);
        assert(tail.subrange((k - 1) as int, tail.len() as int) =~= outcomes.subrange(k as int, outcomes.len() as int));
    }
}

/// A page whose first `k` attempts fail with a retryable error, `k` at most
/// the retry bound, and whose next attempt succeeds, succeeds with that value
/// after exactly `k + 1` attempts.
pub proof fn lemma_retry_recovers<R>(max_retries: usize, outcomes: Seq<FirestoreResult<R>>, k: nat, v: R)
    requires
        k <= max_retries,
        k < outcomes.len(),
        forall|i: int| 0 <= i < k ==> is_retryable(#[trigger] outcomes[i]->Err_0) && outcomes[i] is Err,
        outcomes[k as int] == Ok::<R, FirestoreError>(v),
    ensures
        retry_run(RetryState { attempt: 0, max_retries }, outcomes) == (k + 1, Some(Ok::<R, FirestoreError>(v))),
{
    let st = RetryState { attempt: 0, max_retries };
    lemma_retryable_prefix(st, outcomes, k);
    let rest = outcomes.subrange(k as int, outcomes.len() as int);
    assert(rest[0] == outcomes[k as int]);
}

/// A page whose first `max_retries + 1` attempts all fail with a retryable
/// error fails with `ExhaustedRetries`, carrying the last of them, after
/// exactly `max_retries + 1` attempts.
pub proof fn lemma_retry_exhausts<R>(max_retries: usize, outcomes: Seq<FirestoreResult<R>>)
    requires
        max_retries < outcomes.len(),
        forall|i: int| 0 <= i <= max_retries ==> is_retryable(#[trigger] outcomes[i]->Err_0) && outcomes[i] is Err,
    ensures
        retry_run(RetryState { attempt: 0, max_retries }, outcomes) == (
            (max_retries + 1) as nat,
            Some(Err::<R, FirestoreError>(FirestoreError::ExhaustedRetries {
                retries: max_retries,
                last: outcomes[max_retries as int]->Err_0->Transport_0,
            })),
        ),
{
    let st = RetryState { attempt: 0, max_retries };
    lemma_retryable_prefix(st, outcomes, max_retries as nat);
    let rest = outcomes.subrange(max_retries as int, outcomes.len() as int);
    assert(rest[0] == outcomes[max_retries as int]);
}

/// A page whose first attempt fails with an error that is not retryable fails
/// with that error after exactly one attempt.
pub proof fn lemma_retry_gives_up<R>(max_retries: usize, outcomes: Seq<FirestoreResult<R>>, e: FirestoreError)
    requires
        0 < outcomes.len(),
        outcomes[0] == Err::<R, FirestoreError>(e),
        !is_retryable(e),
    ensures
        retry_run(RetryState { attempt: 0, max_retries }, outcomes) == (1nat, Some(Err::<R, FirestoreError>(e))),
{
}

} // verus!
