//! One request and its answer: how a response is read, and the bounded retry
//! policy that wraps each request.
//!
//! The caller performs the request and decodes the body against the schema
//! that the status calls for: the expected result on a success status, the
//! service's error report on any other. What came of that is a [`Reply`]. The
//! library decides what the reply means ([`Outcome`]) and whether to try again
//! ([`Retry`]).

use vstd::prelude::*;

use crate::error::{BodhiError, Failure, QueryError};

verus! {

/// The status with which the service says that a resource does not exist.
pub const NOT_FOUND: u16 = 404;

/// Whether `status` is of the success class (2xx).
pub open spec fn success_status(status: u16) -> bool {
    200 <= status <= 299
}

/// Whether `status` is of the success class (2xx). The body of such a
/// response is decoded against the expected schema, any other against the
/// service's error schema.
pub fn is_success(status: u16) -> (r: bool)
    ensures
        r == success_status(status),
{
    200 <= status && status <= 299
}

/// What came back for one request, as the caller read it.
#[derive(Debug)]
pub enum Reply<T> {
    /// a success status; the decoded body, or why it did not decode
    Success(Result<T, String>),
    /// any other status; the decoded error report, or why it did not decode
    Failure { status: u16, report: Result<BodhiError, String> },
    /// no response at all: the connection failed or timed out
    Unreachable(String),
}

/// What one attempt amounts to.
#[derive(Debug)]
pub enum Outcome<T> {
    /// a definitive answer, good or bad
    Settled(Result<T, QueryError>),
    /// no usable answer; another attempt may be made
    Retryable(Failure),
}

/// The meaning of a reply when the status alone does not settle it: a
/// decoded body is the answer, a decoded error report is a definitive
/// rejection, and anything that did not decode may be tried again.
pub open spec fn general_outcome<T>(reply: Reply<T>) -> Outcome<T> {
    match reply {
        Reply::Success(Ok(t)) => Outcome::Settled(Ok(t)),
        Reply::Success(Err(m)) => Outcome::Retryable(Failure::Malformed(m)),
        Reply::Failure { status, report: Ok(e) } => Outcome::Settled(
            Err(QueryError::BodhiError { error: e }),
        ),
        Reply::Failure { status, report: Err(m) } => Outcome::Retryable(Failure::Malformed(m)),
        Reply::Unreachable(m) => Outcome::Retryable(Failure::Transport(m)),
    }
}

/// The meaning of a reply to a single-object lookup: "not found" is the
/// absent result, and a found object is the one result.
pub open spec fn lookup_outcome<T>(reply: Reply<T>) -> Outcome<Option<T>> {
    match reply {
        Reply::Failure { status, report } if status == NOT_FOUND => Outcome::Settled(Ok(None)),
        Reply::Success(Ok(t)) => Outcome::Settled(Ok(Some(t))),
        Reply::Success(Err(m)) => Outcome::Retryable(Failure::Malformed(m)),
        Reply::Failure { status, report: Ok(e) } => Outcome::Settled(
            Err(QueryError::BodhiError { error: e }),
        ),
        Reply::Failure { status, report: Err(m) } => Outcome::Retryable(Failure::Malformed(m)),
        Reply::Unreachable(m) => Outcome::Retryable(Failure::Transport(m)),
    }
}

/// Reads a reply to a request whose status carries no special meaning: a
/// page of a list query, a token request, or the submission of a new update.
pub fn outcome_of<T>(reply: Reply<T>) -> (r: Outcome<T>)
    ensures
        r == general_outcome(reply),
{
    match reply {
        Reply::Success(Ok(t)) => Outcome::Settled(Ok(t)),
        Reply::Success(Err(m)) => Outcome::Retryable(Failure::Malformed(m)),
        Reply::Failure { status, report: Ok(e) } => Outcome::Settled(
            Err(QueryError::BodhiError { error: e }),
        ),
        Reply::Failure { status, report: Err(m) } => Outcome::Retryable(Failure::Malformed(m)),
        Reply::Unreachable(m) => Outcome::Retryable(Failure::Transport(m)),
    }
}

/// Reads a reply to a single-object lookup.
pub fn lookup_outcome_of<T>(reply: Reply<T>) -> (r: Outcome<Option<T>>)
    ensures
        r == lookup_outcome(reply),
{
    match reply {
        Reply::Failure { status, report } if status == NOT_FOUND => Outcome::Settled(Ok(None)),
        Reply::Success(Ok(t)) => Outcome::Settled(Ok(Some(t))),
        Reply::Success(Err(m)) => Outcome::Retryable(Failure::Malformed(m)),
        Reply::Failure { status, report: Ok(e) } => Outcome::Settled(
            Err(QueryError::BodhiError { error: e }),
        ),
        Reply::Failure { status, report: Err(m) } => Outcome::Retryable(Failure::Malformed(m)),
        Reply::Unreachable(m) => Outcome::Retryable(Failure::Transport(m)),
    }
}

/// How often a request is tried, and how long to wait between attempts.
#[derive(Clone, Copy, Debug)]
pub struct RetryPolicy {
    pub max_attempts: u32,
    pub delay_secs: u64,
}

/// Where a retried request stands, seen abstractly.
pub enum Verdict<T> {
    /// another attempt is due; `remaining` attempts are left, counting it
    Pending { remaining: nat, failures: Seq<Failure> },
    /// the request was answered
    Answer(Result<T, QueryError>),
    /// every allowed attempt failed, for these reasons in order
    GaveUp(Seq<Failure>),
}

/// Where a request stands before its first attempt.
pub open spec fn retry_begin<T>(max_attempts: nat) -> Verdict<T> {
    if max_attempts == 0 {
        Verdict::GaveUp(Seq::empty())
    } else {
        Verdict::Pending { remaining: max_attempts, failures: Seq::empty() }
    }
}

/// The verdict that a definitive answer stands for.
pub open spec fn settled_verdict<T>(r: Result<T, QueryError>) -> Verdict<T> {
    match r {
        Err(QueryError::Unanswered { failures }) => Verdict::GaveUp(failures@),
        _ => Verdict::Answer(r),
    }
}

/// Where a request stands after one more attempt with outcome `o`, when
/// `remaining` attempts were left and `failures` recorded.
pub open spec fn retry_step<T>(remaining: nat, failures: Seq<Failure>, o: Outcome<T>) -> Verdict<T> {
    match o {
        Outcome::Settled(r) => settled_verdict(r),
        Outcome::Retryable(f) => if remaining <= 1 {
            Verdict::GaveUp(failures.push(f))
        } else {
            Verdict::Pending { remaining: (remaining - 1) as nat, failures: failures.push(f) }
        },
    }
}

/// Where a request stands after the attempts with `outcomes`, in order, made
/// from verdict `v`. Once answered or given up, later outcomes do not count.
pub open spec fn retry_run<T>(v: Verdict<T>, outcomes: Seq<Outcome<T>>) -> Verdict<T>
    decreases outcomes.len(),
{
    match v {
        Verdict::Pending { remaining, failures } => if outcomes.len() == 0 {
            v
        } else {
            retry_run(retry_step(remaining, failures, outcomes[0]), outcomes.drop_first())
        },
        _ => v,
    }
}

/// One failed attempt for each of `reasons`, in order, then one answered with `a`.
pub open spec fn failing_then<T>(reasons: Seq<Failure>, a: Result<T, QueryError>) -> Seq<Outcome<T>> {
    reasons.map_values(|f: Failure| Outcome::<T>::Retryable(f)).push(Outcome::Settled(a))
}

/// From any pending state, a run of failures followed by an answer ends in the
/// answer when the attempts left outnumber the failures, and otherwise gives
/// up with as many reasons as there were attempts left, in order.
pub proof fn lemma_retry_run_from<T>(
    remaining: nat,
    failures: Seq<Failure>,
    reasons: Seq<Failure>,
    a: Result<T, QueryError>,
)
    requires
        remaining > 0,
    ensures
        remaining > reasons.len() ==> retry_run(
            Verdict::Pending { remaining, failures },
            failing_then(reasons, a),
        ) == settled_verdict(a),
        remaining <= reasons.len() ==> retry_run(
            Verdict::Pending { remaining, failures },
            failing_then(reasons, a),
        ) == Verdict::<T>::GaveUp(failures + reasons.take(remaining as int)),
    decreases reasons.len(),
{
    let outcomes = failing_then(reasons, a);
    let v = Verdict::<T>::Pending { remaining, failures };
    assert(retry_run(v, outcomes) == retry_run(
        retry_step(remaining, failures, outcomes[0]),
        outcomes.drop_first(),
    ));
    if reasons.len() == 0 {
        assert(outcomes[0] == Outcome::<T>::Settled(a));
        assert(retry_run(settled_verdict(a), outcomes.drop_first()) == settled_verdict(a));
        assert(reasons.take(0) =~= Seq::<Failure>::empty());
        assert(failures + Seq::<Failure>::empty() =~= failures);
    } else {
        let f = reasons[0];
        assert(outcomes[0] == Outcome::<T>::Retryable(f));
        let rest = reasons.drop_first();
        assert(outcomes.drop_first() =~= failing_then(rest, a));
        if remaining <= 1 {
            assert(retry_step(remaining, failures, outcomes[0]) == Verdict::<T>::GaveUp(failures.push(f)));
            assert(retry_run(Verdict::<T>::GaveUp(failures.push(f)), outcomes.drop_first())
                == Verdict::<T>::GaveUp(failures.push(f)));
            assert(reasons.take(remaining as int) =~= seq![f]);
            assert(failures.push(f) =~= failures + seq![f]);
        } else {
            let r2 = (remaining - 1) as nat;
            let fs2 = failures.push(f);
            lemma_retry_run_from(r2, fs2, rest, a);
            if remaining <= reasons.len() {
                assert(fs2 + rest.take(r2 as int) =~= failures + reasons.take(remaining as int));
            }
        }
    }
}

/// The retry policy's law: a request whose first attempts fail, one for each
/// of `reasons`, and whose next attempt is answered gets that answer when the
/// budget exceeds the number of failures, and otherwise fails with one
/// recorded reason per allowed attempt, in order.
pub proof fn lemma_retry_budget<T>(max_attempts: nat, reasons: Seq<Failure>, a: Result<T, QueryError>)
    ensures
        max_attempts > reasons.len() ==> retry_run(retry_begin(max_attempts), failing_then(reasons, a))
            == settled_verdict(a),
        max_attempts <= reasons.len() ==> retry_run(retry_begin(max_attempts), failing_then(reasons, a))
            == Verdict::<T>::GaveUp(reasons.take(max_attempts as int)),
{
    if max_attempts == 0 {
        assert(reasons.take(0) =~= Seq::<Failure>::empty());
    } else {
        lemma_retry_run_from(max_attempts, Seq::empty(), reasons, a);
        assert(Seq::<Failure>::empty() + reasons.take(max_attempts as int) =~= reasons.take(
            max_attempts as int,
        ));
    }
}

/// A single-object lookup answered "not found", at whatever attempt, ends in
/// the absent result and not in an error; one answered with an object ends
/// in exactly that object.
pub proof fn lemma_lookup_absent_or_one<T>(
    remaining: nat,
    failures: Seq<Failure>,
    report: Result<BodhiError, String>,
    t: T,
)
    ensures
        retry_step(remaining, failures, lookup_outcome(Reply::<T>::Failure { status: NOT_FOUND, report }))
            == Verdict::<Option<T>>::Answer(Ok(None)),
        retry_step(remaining, failures, lookup_outcome(Reply::Success(Ok(t))))
            == Verdict::<Option<T>>::Answer(Ok(Some(t))),
{
}

/// A request in progress under a retry policy.
#[derive(Debug)]
pub struct Retry {
    remaining: u32,
    delay_secs: u64,
    failures: Vec<Failure>,
}

/// What to do next about a request.
#[derive(Debug)]
pub enum RetryStep<T> {
    /// wait `delay_secs` seconds, then make one more attempt and hand its
    /// outcome to `state`
    Attempt { delay_secs: u64, state: Retry },
    /// the request is finished
    Done(Result<T, QueryError>),
}

impl Retry {
    /// Attempts left, counting the next one.
    pub closed spec fn remaining(&self) -> nat {
        self.remaining as nat
    }

    /// The reasons why the attempts so far failed, in order.
    pub closed spec fn failures(&self) -> Seq<Failure> {
        self.failures@
    }

    /// The wait before each further attempt.
    pub closed spec fn delay(&self) -> u64 {
        self.delay_secs
    }
}

impl<T> RetryStep<T> {
    /// The verdict that this step stands for.
    pub open spec fn verdict(&self) -> Verdict<T> {
        match self {
            RetryStep::Attempt { delay_secs, state } => Verdict::Pending {
                remaining: state.remaining(),
                failures: state.failures(),
            },
            RetryStep::Done(r) => settled_verdict(*r),
        }
    }
}

/// Starts a request under `policy`: the first attempt is made at once.
pub fn begin<T>(policy: RetryPolicy) -> (r: RetryStep<T>)
    ensures
        r.verdict() == retry_begin::<T>(policy.max_attempts as nat),
        r matches RetryStep::Attempt { delay_secs, state } ==> delay_secs == 0 && state.delay()
            == policy.delay_secs && state.remaining() > 0,
{
    if policy.max_attempts == 0 {
        let r = RetryStep::Done(Err(QueryError::Unanswered { failures: Vec::new() }));
        assert(r.verdict() == Verdict::<T>::GaveUp(Seq::empty()));
        r
    } else {
        let state = Retry {
            remaining: policy.max_attempts,
            delay_secs: policy.delay_secs,
            failures: Vec::new(),
        };
        assert(state.failures() =~= Seq::<Failure>::empty());
        RetryStep::Attempt { delay_secs: 0, state }
    }
}

impl Retry {
    /// Records the outcome of the attempt just made. A definitive answer ends
    /// the request at once; a failure is recorded, and is followed by another
    /// attempt after the policy's delay while the budget lasts.
    pub fn record<T>(self, outcome: Outcome<T>) -> (r: RetryStep<T>)
        requires
            self.remaining() > 0,
        ensures
            r.verdict() == retry_step(self.remaining(), self.failures(), outcome),
            r matches RetryStep::Attempt { delay_secs, state } ==> delay_secs == self.delay()
                && state.delay() == self.delay() && state.remaining() > 0,
    {
        match outcome {
            Outcome::Settled(res) => RetryStep::Done(res),
            Outcome::Retryable(f) => {
                let mut failures = self.failures;
                failures.push(f);
                if self.remaining <= 1 {
                    RetryStep::Done(Err(QueryError::Unanswered { failures }))
                } else {
                    let state = Retry {
                        remaining: self.remaining - 1,
                        delay_secs: self.delay_secs,
                        failures,
                    };
                    RetryStep::Attempt { delay_secs: self.delay_secs, state }
                }
            },
        }
    }
}

} // verus!
