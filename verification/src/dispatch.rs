//! The retry/reconnect dispatch algorithm that wraps every remote operation.
//!
//! [`Dispatch`] is the per-call state machine: it grants attempts while the
//! retry budget lasts, records one error per failed attempt (a failed
//! reconnection simply becomes the recorded error of the attempt that needed
//! it), hands back the linearly growing sleep to take before the next
//! attempt, and aggregates every recorded error, in attempt order, once the
//! budget is exhausted.
//!
//! [`run_with_outcomes`] is the whole loop, verified end to end against a
//! given sequence of per-attempt outcomes: the first success within the
//! budget is returned as is and ends the loop — later outcomes are never
//! consulted — and if the first `retry` outcomes all fail, exactly those
//! failures come back aggregated, in order.

use vstd::prelude::*;

use crate::errors::Error;

verus! {

/// What one attempt at a remote operation came to: the operation's value, or
/// the failure observed (the operation's error, or the error of the
/// reconnection the failure forced).
#[derive(Debug)]
pub enum AttemptOutcome<T> {
    Success(T),
    Failure(String),
}

/// The value carried by a successful outcome.
pub open spec fn success_of<T>(o: AttemptOutcome<T>) -> T {
    match o {
        AttemptOutcome::Success(v) => v,
        AttemptOutcome::Failure(_) => arbitrary(),
    }
}

/// The failure carried by a failed outcome.
pub open spec fn failure_of<T>(o: AttemptOutcome<T>) -> String {
    match o {
        AttemptOutcome::Success(_) => arbitrary(),
        AttemptOutcome::Failure(m) => m,
    }
}

/// The first `k` outcomes are all failures.
pub open spec fn all_fail_before<T>(outs: Seq<AttemptOutcome<T>>, k: int) -> bool {
    forall|i: int| 0 <= i < k ==> outs[i] is Failure
}

/// The failures carried by the first `k` outcomes, in order.
pub open spec fn errors_before<T>(outs: Seq<AttemptOutcome<T>>, k: int) -> Seq<String>
    recommends
        0 <= k <= outs.len(),
{
    Seq::new(k as nat, |i: int| failure_of(outs[i]))
}

/// Spec-level image of a [`Dispatch`].
pub struct DispatchView {
    /// The configured retry limit: attempts allowed per call.
    pub retry: u8,
    /// Attempts failed so far.
    pub count: u8,
    /// One recorded error per failed attempt, in attempt order.
    pub errors: Seq<String>,
}

/// The per-call retry state machine.
///
/// A caller loops: while [`should_attempt`](Dispatch::should_attempt) grants
/// an attempt, it forwards the operation to the live backend; a success is
/// returned immediately and the machine is dropped; a failure is recorded
/// with [`on_failure`](Dispatch::on_failure), which also says how long to
/// sleep before the next attempt. Once attempts are no longer granted,
/// [`aggregate_error`](Dispatch::aggregate_error) yields the aggregate of
/// every recorded failure.
pub struct Dispatch {
    retry: u8,
    count: u8,
    errors: Vec<String>,
}

impl View for Dispatch {
    type V = DispatchView;

    closed spec fn view(&self) -> DispatchView {
        DispatchView { retry: self.retry, count: self.count, errors: self.errors@ }
    }
}

impl Dispatch {
    /// Failed attempts never outnumber the budget, and each one recorded
    /// exactly one error.
    pub open spec fn wf(&self) -> bool {
        self@.count <= self@.retry && self@.errors.len() == self@.count
    }

    /// A fresh machine for one call under a budget of `retry` attempts.
    pub fn new(retry: u8) -> (r: Self)
        ensures
            r@ == (DispatchView { retry: retry, count: 0, errors: Seq::<String>::empty() }),
            r.wf(),
    {
        Dispatch { retry, count: 0, errors: Vec::new() }
    }

    /// Whether the budget still grants an attempt.
    pub fn should_attempt(&self) -> (b: bool)
        ensures
            b == (self@.count < self@.retry),
    {
        self.count < self.retry
    }

    /// Record the failure of the attempt under way and return the number of
    /// seconds to sleep before the next one — equal to the number of the
    /// attempt that just failed, so the backoff grows linearly.
    pub fn on_failure(&mut self, err: String) -> (sleep_secs: u64)
        requires
            old(self).wf(),
            old(self)@.count < old(self)@.retry,
        ensures
            final(self).wf(),
            final(self)@.retry == old(self)@.retry,
            final(self)@.count == old(self)@.count + 1,
            final(self)@.errors == old(self)@.errors.push(err),
            sleep_secs == old(self)@.count + 1,
    {
        self.count = self.count + 1;
        self.errors.push(err);
        self.count as u64
    }

    /// Attempts failed so far.
    pub fn count(&self) -> (c: u8)
        ensures
            c == self@.count,
    {
        self.count
    }

    /// The aggregate of every recorded failure, in attempt order.
    pub fn aggregate_error(self) -> (r: Error)
        ensures
            r matches Error::AllAttemptsErrored(es) && es@ == self@.errors,
    {
        Error::AllAttemptsErrored(self.errors)
    }
}

/// The retry loop, run against the given per-attempt outcomes: outcome `i`
/// is what attempt `i + 1` comes to. Returns the call's result and the
/// number of attempts made.
///
/// The first success within the budget is returned as is, after exactly as
/// many attempts as it took — later outcomes are never consulted. If the
/// first `retry` outcomes all fail, the aggregate of exactly those failures
/// comes back, in attempt order; with a budget of zero, no attempt is made
/// and the aggregate is empty.
#[verifier::loop_isolation(false)]
pub fn run_with_outcomes<T>(retry: u8, outcomes: Vec<AttemptOutcome<T>>) -> (r: (
    Result<T, Error>,
    u8,
))
    requires
        outcomes@.len() >= retry,
    ensures
        all_fail_before(outcomes@, retry as int) ==> (r.0 matches Err(
            Error::AllAttemptsErrored(es),
        ) && es@ == errors_before(outcomes@, retry as int) && r.1 == retry),
        forall|k: int|
            0 <= k < retry && all_fail_before(outcomes@, k) && outcomes@[k] is Success ==> r.0
                == Result::<T, Error>::Ok(success_of(outcomes@[k])) && r.1 == k + 1,
{
    let ghost outs = outcomes@;
    let mut dispatch = Dispatch::new(retry);
    let mut rest = outcomes;
    loop
        invariant
            dispatch.wf(),
            dispatch@.retry == retry,
            outs.len() >= retry,
            rest@ == outs.subrange(dispatch@.count as int, outs.len() as int),
            all_fail_before(outs, dispatch@.count as int),
            dispatch@.errors == errors_before(outs, dispatch@.count as int),
        decreases retry - dispatch@.count,
    {
        if !dispatch.should_attempt() {
            let attempts = dispatch.count();
            proof {
                assert forall|k: int|
                    0 <= k < retry && all_fail_before(outs, k) && outs[k] is Success implies false
                by {
                    assert(outs[k] is Failure);
                }
            }
            return (Err(dispatch.aggregate_error()), attempts);
        }
        let ghost made = dispatch@.count as int;
        let out = rest.remove(0);
        proof {
            assert(out == outs[made]);
            assert(rest@ =~= outs.subrange(made + 1, outs.len() as int));
        }
        match out {
            AttemptOutcome::Success(v) => {
                let attempts = dispatch.count() + 1;
                proof {
                    assert forall|k: int|
                        0 <= k < retry && all_fail_before(outs, k) && outs[k] is Success implies k
                        == made by {
                        if k < made {
                            assert(outs[k] is Failure);
                        }
                        if made < k {
                            assert(outs[made] is Failure);
                        }
                    }
                    assert(!all_fail_before(outs, retry as int)) by {
                        assert(outs[made] is Success);
                    }
                }
                return (Ok(v), attempts);
            },
            AttemptOutcome::Failure(m) => {
                let _sleep_secs = dispatch.on_failure(m);
                proof {
                    assert(dispatch@.errors =~= errors_before(outs, dispatch@.count as int));
                    assert(all_fail_before(outs, dispatch@.count as int)) by {
                        assert(outs[made] is Failure);
                    }
                }
            },
        }
    }
}

} // verus!
