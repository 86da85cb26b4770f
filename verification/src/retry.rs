//! The retry controller: which outcome of an attempt ends a send, and how
//! long to wait before the next attempt where it does not.
//!
//! Only a bad status 429 is retried, at most `RETRY_COUNT` times, after
//! delays that start at `RETRY_INITIAL_DELAY_MS` and double each time.

use crate::error::result_view;
use crate::error::ErrorModel;
use crate::error::HttpClientResult;
use crate::error::TOO_MANY_REQUESTS;
use vstd::prelude::*;

verus! {

/// The most retries that follow the first attempt.
pub const RETRY_COUNT: usize = 5;

/// The milliseconds to wait before the first retry.
pub const RETRY_INITIAL_DELAY_MS: u64 = 100;

/// The factor by which the delay grows from one retry to the next.
pub const RETRY_FACTOR: u64 = 2;

/// The milliseconds to wait before the retry that follows `retries` others.
pub open spec fn retry_delay_ms(retries: nat) -> nat
    decreases retries,
{
    if retries == 0 {
        RETRY_INITIAL_DELAY_MS as nat
    } else {
        RETRY_FACTOR as nat * retry_delay_ms((retries - 1) as nat)
    }
}

/// What the controller makes of an outcome, as a value of the specification.
pub enum VerdictModel<R> {
    /// The send ends with this result.
    Done(Result<R, ErrorModel>),
    /// Another attempt follows after the delay; `retries` counts it.
    RetryAfter { delay_ms: nat, retries: nat },
}

/// The verdict on the outcome of an attempt that `retries` retries came
/// before: a rate-limit error is retried while retries are left, and every
/// other outcome ends the send as it is.
pub open spec fn verdict_of<R>(retries: nat, outcome: Result<R, ErrorModel>) -> VerdictModel<R> {
    match outcome {
        Err(err) if err.is_rate_limited() && retries < RETRY_COUNT => VerdictModel::RetryAfter {
            delay_ms: retry_delay_ms(retries),
            retries: retries + 1,
        },
        _ => VerdictModel::Done(outcome),
    }
}

/// How far a send has come: the retries made so far and the delay before the next.
pub struct Backoff {
    retries: usize,
    delay_ms: u64,
}

/// What the controller makes of an outcome.
pub enum Verdict<R> {
    /// The send ends with this result.
    Done(HttpClientResult<R>),
    /// Wait for the delay, then attempt again and judge by `backoff`.
    RetryAfter { delay_ms: u64, backoff: Backoff },
}

impl<R> View for Verdict<R> {
    type V = VerdictModel<R>;

    open spec fn view(&self) -> VerdictModel<R> {
        match self {
            Verdict::Done(result) => VerdictModel::Done(result_view(*result)),
            Verdict::RetryAfter { delay_ms, backoff } => VerdictModel::RetryAfter {
                delay_ms: *delay_ms as nat,
                retries: backoff.retries(),
            },
        }
    }
}

impl Backoff {
    #[verifier::type_invariant]
    spec fn well_formed(self) -> bool {
        &&& self.retries <= RETRY_COUNT
        &&& self.delay_ms == retry_delay_ms(self.retries as nat)
    }

    /// The retries made so far.
    pub closed spec fn retries(self) -> nat {
        self.retries as nat
    }

    /// The state before the first attempt.
    pub fn start() -> (r: Self)
        ensures
            r.retries() == 0,
    {
        Backoff { retries: 0, delay_ms: RETRY_INITIAL_DELAY_MS }
    }

    /// The retries made so far.
    pub fn retries_made(&self) -> (r: usize)
        ensures
            r == self.retries(),
            r <= RETRY_COUNT,
    {
        proof {
            use_type_invariant(self);
        }
        self.retries
    }

    /// Judges the outcome of an attempt.
    pub fn judge<R>(self, outcome: HttpClientResult<R>) -> (r: Verdict<R>)
        ensures
            r@ == verdict_of(self.retries(), result_view(outcome)),
    {
        proof {
            use_type_invariant(&self);
            lemma_retry_delays();
        }
        match outcome {
            Err(err) => {
                if err.is_rate_limited() && self.retries < RETRY_COUNT {
                    Verdict::RetryAfter {
                        delay_ms: self.delay_ms,
                        backoff: Backoff {
                            retries: self.retries + 1,
                            delay_ms: self.delay_ms * RETRY_FACTOR,
                        },
                    }
                } else {
                    Verdict::Done(Err(err))
                }
            },
            Ok(value) => Verdict::Done(Ok(value)),
        }
    }
}

/// Only a rate-limit error is retried, and only while retries are left.
pub proof fn lemma_retry_only_on_rate_limit<R>(retries: nat, outcome: Result<R, ErrorModel>)
    ensures
        verdict_of(retries, outcome) is RetryAfter <==> outcome == rate_limited::<R>() && retries
            < RETRY_COUNT,
        verdict_of(retries, outcome) is Done ==> verdict_of(retries, outcome)
            == VerdictModel::Done(outcome),
{
}

/// The delays of the retries, one by one.
pub proof fn lemma_retry_delays()
    ensures
        retry_delay_ms(0) == 100,
        retry_delay_ms(1) == 200,
        retry_delay_ms(2) == 400,
        retry_delay_ms(3) == 800,
        retry_delay_ms(4) == 1600,
        retry_delay_ms(5) == 3200,
{
    reveal_with_fuel(retry_delay_ms, 6);
}

/// What a send does with the outcomes of its attempts, as far as they are
/// known: the delays it waits, the result it ends with, if it ends, and the
/// attempts it makes.
pub struct Run<R> {
    pub delays: Seq<nat>,
    pub result: Option<Result<R, ErrorModel>>,
    pub attempts: nat,
}

/// The run of a send that has made `retries` retries and whose further
/// attempts end with `outcomes`, in this order. Outcomes after the one that
/// ends the send are never asked for.
pub open spec fn run<R>(retries: nat, outcomes: Seq<Result<R, ErrorModel>>) -> Run<R>
    decreases outcomes.len(),
{
    if outcomes.len() == 0 {
        Run { delays: Seq::empty(), result: None, attempts: 0 }
    } else {
        match verdict_of(retries, outcomes[0]) {
            VerdictModel::Done(result) => Run {
                delays: Seq::empty(),
                result: Some(result),
                attempts: 1,
            },
            VerdictModel::RetryAfter { delay_ms, retries: next } => {
                let rest = run(next, outcomes.drop_first());
                Run {
                    delays: seq![delay_ms] + rest.delays,
                    result: rest.result,
                    attempts: 1 + rest.attempts,
                }
            },
        }
    }
}

/// The delays before the first `count` retries.
pub open spec fn first_delays(count: nat) -> Seq<nat> {
    Seq::new(count, |i: int| retry_delay_ms(i as nat))
}

/// The rate-limit error as an outcome.
pub open spec fn rate_limited<R>() -> Result<R, ErrorModel> {
    Err(ErrorModel::BadStatus(TOO_MANY_REQUESTS))
}

/// A send whose attempts are rate-limited `count` times and then end
/// otherwise, having made `retries` retries before.
proof fn lemma_run_after_rate_limits<R>(
    retries: nat,
    count: nat,
    outcomes: Seq<Result<R, ErrorModel>>,
)
    requires
        retries + count <= RETRY_COUNT,
        count < outcomes.len(),
        forall|i: int| 0 <= i < count ==> outcomes[i] == rate_limited::<R>(),
        retries + count < RETRY_COUNT ==> outcomes[count as int] != rate_limited::<R>(),
    ensures
        run(retries, outcomes).result == Some(outcomes[count as int]),
        run(retries, outcomes).attempts == count + 1,
        run(retries, outcomes).delays == Seq::new(
            count,
            |i: int| retry_delay_ms((retries + i) as nat),
        ),
    decreases count,
{
    if count == 0 {
        assert(run(retries, outcomes).delays == Seq::<nat>::new(
            0,
            |i: int| retry_delay_ms((retries + i) as nat),
        ));
    } else {
        assert(outcomes[0] == rate_limited::<R>());
        let rest = outcomes.drop_first();
        assert forall|i: int| 0 <= i < count - 1 implies rest[i] == rate_limited::<R>() by {
            assert(rest[i] == outcomes[i + 1]);
        }
        assert(rest[count - 1] == outcomes[count as int]);
        lemma_run_after_rate_limits(retries + 1, (count - 1) as nat, rest);
        let tail = Seq::new((count - 1) as nat, |i: int| retry_delay_ms((retries + 1 + i) as nat));
        assert(seq![retry_delay_ms(retries)] + tail == Seq::new(
            count,
            |i: int| retry_delay_ms((retries + i) as nat),
        ));
    }
}

/// Six rate-limited attempts in a row make exactly five retries, after 100,
/// 200, 400, 800 and 1600 milliseconds, and end the send with the
/// rate-limit error of the sixth.
pub proof fn lemma_six_rate_limits_exhaust_retries<R>(outcomes: Seq<Result<R, ErrorModel>>)
    requires
        outcomes.len() >= 6,
        forall|i: int| 0 <= i < 6 ==> outcomes[i] == rate_limited::<R>(),
    ensures
        run(0, outcomes).delays == seq![100nat, 200, 400, 800, 1600],
        run(0, outcomes).result == Some(rate_limited::<R>()),
        run(0, outcomes).attempts == 6,
{
    lemma_run_after_rate_limits(0, 5, outcomes);
    lemma_retry_delays();
    assert(Seq::new(5, |i: int| retry_delay_ms((0 + i) as nat)) == seq![
        100nat,
        200,
        400,
        800,
        1600,
    ]);
}

/// A success on any attempt up to the sixth ends the send with that
/// success; the retries before it waited the first delays, one each.
pub proof fn lemma_success_stops_retrying<R>(
    rate_limits: nat,
    value: R,
    outcomes: Seq<Result<R, ErrorModel>>,
)
    requires
        rate_limits <= RETRY_COUNT,
        rate_limits < outcomes.len(),
        forall|i: int| 0 <= i < rate_limits ==> outcomes[i] == rate_limited::<R>(),
        outcomes[rate_limits as int] == Ok::<R, ErrorModel>(value),
    ensures
        run(0, outcomes).result == Some(Ok::<R, ErrorModel>(value)),
        run(0, outcomes).attempts == rate_limits + 1,
        run(0, outcomes).delays == first_delays(rate_limits),
{
    lemma_run_after_rate_limits(0, rate_limits, outcomes);
    assert(Seq::new(rate_limits, |i: int| retry_delay_ms((0 + i) as nat)) == first_delays(
        rate_limits,
    ));
}

/// An error other than the rate limit ends the send at once with that
/// error: no attempt follows it.
pub proof fn lemma_other_error_halts<R>(
    rate_limits: nat,
    err: ErrorModel,
    outcomes: Seq<Result<R, ErrorModel>>,
)
    requires
        rate_limits <= RETRY_COUNT,
        rate_limits < outcomes.len(),
        forall|i: int| 0 <= i < rate_limits ==> outcomes[i] == rate_limited::<R>(),
        outcomes[rate_limits as int] == Err::<R, ErrorModel>(err),
        !err.is_rate_limited(),
    ensures
        run(0, outcomes).result == Some(Err::<R, ErrorModel>(err)),
        run(0, outcomes).attempts == rate_limits + 1,
        run(0, outcomes).delays == first_delays(rate_limits),
{
    lemma_run_after_rate_limits(0, rate_limits, outcomes);
    assert(Seq::new(rate_limits, |i: int| retry_delay_ms((0 + i) as nat)) == first_delays(
        rate_limits,
    ));
}

/// A send makes at most six attempts and five retries, whatever comes back.
pub proof fn lemma_attempts_are_bounded<R>(retries: nat, outcomes: Seq<Result<R, ErrorModel>>)
    requires
        retries <= RETRY_COUNT,
    ensures
        run(retries, outcomes).attempts <= RETRY_COUNT - retries + 1,
        run(retries, outcomes).delays.len() <= RETRY_COUNT - retries,
        run(retries, outcomes).result is Some ==> run(retries, outcomes).attempts
            == run(retries, outcomes).delays.len() + 1,
    decreases outcomes.len(),
{
    if outcomes.len() > 0 {
        match verdict_of(retries, outcomes[0]) {
            VerdictModel::Done(_) => {},
            VerdictModel::RetryAfter { delay_ms, retries: next } => {
                lemma_attempts_are_bounded(next, outcomes.drop_first());
            },
        }
    }
}

} // verus!
