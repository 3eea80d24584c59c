//! Per-job execution model: one job is driven through up to `MAX_ATTEMPTS`
//! attempts. Each attempt stages whatever content arrived, then the outcome
//! is classified: a completed stream commits, a retryable failure with
//! attempts remaining backs off and retries with a fresh staging area, and
//! anything else fails the job terminally with nothing published.

use vstd::prelude::*;
use crate::retry::{backoff_delay_ms, backoff_spec, is_retryable_status, retryable_status};
use crate::stream::{flatten_deltas, views_of};
use crate::transaction::StagingOutput;

verus! {

pub const MAX_ATTEMPTS: usize = 5;

pub const BACKOFF_BASE_MS: u64 = 500;

pub const BACKOFF_FACTOR: u64 = 2;

pub const BACKOFF_MAX_MS: u64 = 30000;

/// Classification of a transport-level failure.
#[derive(Clone, Copy, Debug, PartialEq, Eq, Structural)]
pub enum TransportKind {
    Timeout,
    Connect,
    Request,
    Other,
}

/// Transport failures worth retrying: timeouts, connection failures and
/// request-construction failures.
pub open spec fn transport_retryable(k: TransportKind) -> bool {
    !(k is Other)
}

pub fn is_retryable_transport(k: TransportKind) -> (r: bool)
    ensures
        r == transport_retryable(k),
{
    match k {
        TransportKind::Other => false,
        _ => true,
    }
}

/// How one attempt of one job ended.
#[derive(Clone, Copy, Debug, PartialEq, Eq, Structural)]
pub enum AttemptOutcome {
    /// The stream reached its terminal sentinel or its end.
    Completed,
    /// The server answered with a non-success status.
    HttpStatus(u16),
    /// Sending the request or reading the stream failed.
    Transport(TransportKind),
    /// No chunk arrived within the idle bound.
    IdleTimeout,
}

/// Which attempt outcomes are worth retrying.
pub open spec fn outcome_retryable(o: AttemptOutcome) -> bool {
    match o {
        AttemptOutcome::Completed => false,
        AttemptOutcome::HttpStatus(code) => retryable_status(code),
        AttemptOutcome::Transport(k) => transport_retryable(k),
        AttemptOutcome::IdleTimeout => true,
    }
}

pub fn is_retryable_outcome(o: &AttemptOutcome) -> (r: bool)
    ensures
        r == outcome_retryable(*o),
{
    match o {
        AttemptOutcome::Completed => false,
        AttemptOutcome::HttpStatus(code) => is_retryable_status(*code),
        AttemptOutcome::Transport(k) => is_retryable_transport(*k),
        AttemptOutcome::IdleTimeout => true,
    }
}

/// What the retry controller does after an attempt.
#[derive(Clone, Copy, Debug, PartialEq, Eq, Structural)]
pub enum AttemptAction {
    /// Publish the staged output.
    Commit,
    /// Discard the staging area, sleep this many milliseconds, try again.
    Retry(u64),
    /// Discard the staging area and fail the job.
    Fail,
}

/// The action after outcome `o` of attempt `attempt` (1-based) of `max`.
pub open spec fn decision_spec(o: AttemptOutcome, attempt: nat, max: nat) -> AttemptAction {
    if o is Completed {
        AttemptAction::Commit
    } else if outcome_retryable(o) && attempt < max {
        AttemptAction::Retry(
            backoff_spec(
                attempt,
                BACKOFF_BASE_MS as nat,
                BACKOFF_FACTOR as nat,
                BACKOFF_MAX_MS as nat,
            ) as u64,
        )
    } else {
        AttemptAction::Fail
    }
}

pub fn attempt_decision(o: &AttemptOutcome, attempt: usize, max: usize) -> (r: AttemptAction)
    requires
        1 <= attempt,
    ensures
        r == decision_spec(*o, attempt as nat, max as nat),
{
    if matches!(o, AttemptOutcome::Completed) {
        return AttemptAction::Commit;
    }
    if is_retryable_outcome(o) && attempt < max {
        let d = backoff_delay_ms(attempt, BACKOFF_BASE_MS, BACKOFF_FACTOR, BACKOFF_MAX_MS);
        proof {
            assert(backoff_spec(
                attempt as nat,
                BACKOFF_BASE_MS as nat,
                BACKOFF_FACTOR as nat,
                BACKOFF_MAX_MS as nat,
            ) <= BACKOFF_MAX_MS);
        }
        AttemptAction::Retry(d)
    } else {
        AttemptAction::Fail
    }
}

/// The whole retry loop over a script of attempt outcomes, starting at
/// `attempt`: whether the job commits, the backoff sleeps taken in order,
/// and the number of the attempt on which the loop stopped.
pub open spec fn run_spec(outcomes: Seq<AttemptOutcome>, attempt: nat, max: nat) -> (
    bool,
    Seq<u64>,
    nat,
)
    recommends
        1 <= attempt <= max <= outcomes.len(),
    decreases max - attempt,
{
    let o = outcomes[attempt - 1];
    match decision_spec(o, attempt, max) {
        AttemptAction::Commit => (true, Seq::empty(), attempt),
        AttemptAction::Fail => (false, Seq::empty(), attempt),
        AttemptAction::Retry(d) => {
            if attempt < max {
                let t = run_spec(outcomes, attempt + 1, max);
                (t.0, seq![d] + t.1, t.2)
            } else {
                (false, Seq::empty(), attempt)
            }
        },
    }
}

/// The observable result of running one job through the retry loop.
pub struct JobRun {
    /// Whether the job's output was committed.
    pub committed: bool,
    /// The backoff sleeps taken, in order.
    pub sleeps: Vec<u64>,
    /// The 1-based number of the last attempt made.
    pub attempts_used: usize,
    /// The destination content, present exactly when the job committed.
    pub published: Option<Vec<u8>>,
}

/// Run one job: per attempt, stage the deltas that arrived, then commit,
/// retry or fail according to the attempt's outcome. The ghost result holds
/// the staging areas of all attempts made, so that the contract can speak of
/// what was left on disk.
pub fn run_job(
    outcomes: &Vec<AttemptOutcome>,
    deltas_per_attempt: &Vec<Vec<Vec<u8>>>,
    max_attempts: usize,
) -> (r: (JobRun, Ghost<Seq<StagingOutput>>))
    requires
        1 <= max_attempts,
        outcomes@.len() >= max_attempts,
        deltas_per_attempt@.len() >= max_attempts,
    ensures
        ({
            let s = run_spec(outcomes@, 1, max_attempts as nat);
            let txs = r.1@;
            &&& r.0.committed == s.0
            &&& r.0.sleeps@ == s.1
            &&& r.0.attempts_used == s.2
            &&& 1 <= s.2 <= max_attempts
            // the destination holds exactly the concatenation of the deltas
            // of the committing attempt, in arrival order - or nothing
            &&& r.0.committed ==> r.0.published is Some && r.0.published->0@ == flatten_deltas(
                views_of(deltas_per_attempt@[s.2 - 1]@),
            )
            &&& !r.0.committed ==> r.0.published is None
            // one staging area per attempt; every one of a non-final attempt
            // was discarded, and the final one was committed exactly when the
            // job succeeded
            &&& txs.len() == s.2
            &&& forall|i: int| 0 <= i < txs.len() ==> (#[trigger] txs[i]).wf()
            &&& forall|i: int| 0 <= i < txs.len() - 1 ==> (#[trigger] txs[i]).is_discarded()
            &&& txs[txs.len() - 1].is_committed() == s.0
            &&& !s.0 ==> forall|i: int|
                0 <= i < txs.len() ==> (#[trigger] txs[i]).is_discarded() && txs[i].published()
                    is None
        }),
{
    let ghost script = outcomes@;
    let ghost max = max_attempts as nat;
    let mut sleeps: Vec<u64> = Vec::new();
    let mut txs: Ghost<Seq<StagingOutput>> = Ghost(Seq::empty());
    let mut attempt: usize = 1;
    let mut committed_flag: bool = false;
    let mut published: Option<Vec<u8>> = None;
    loop
        invariant_except_break
            1 <= attempt <= max_attempts,
            outcomes@ == script,
            outcomes@.len() >= max_attempts,
            deltas_per_attempt@.len() >= max_attempts,
            max == max_attempts as nat,
            run_spec(script, 1, max).0 == run_spec(script, attempt as nat, max).0,
            run_spec(script, 1, max).1 =~= sleeps@ + run_spec(script, attempt as nat, max).1,
            run_spec(script, 1, max).2 == run_spec(script, attempt as nat, max).2,
            txs@.len() == attempt - 1,
            forall|i: int| 0 <= i < txs@.len() ==> (#[trigger] txs@[i]).wf(),
            forall|i: int| 0 <= i < txs@.len() ==> (#[trigger] txs@[i]).is_discarded(),
            committed_flag == false,
            published is None,
        ensures
            ({
                let s = run_spec(script, 1, max);
                &&& 1 <= attempt <= max_attempts
                &&& s.2 == attempt
                &&& txs@.len() == attempt
                &&& sleeps@ =~= s.1
                &&& forall|i: int| 0 <= i < txs@.len() ==> (#[trigger] txs@[i]).wf()
                &&& forall|i: int| 0 <= i < txs@.len() - 1 ==> (#[trigger] txs@[i]).is_discarded()
                &&& txs@[txs@.len() - 1].is_committed() == s.0
                &&& !s.0 ==> txs@[txs@.len() - 1].is_discarded()
                &&& committed_flag == s.0
                &&& s.0 ==> published is Some && published->0@ == flatten_deltas(
                    views_of(deltas_per_attempt@[attempt - 1]@),
                )
                &&& !s.0 ==> published is None
            }),
        decreases max_attempts - attempt,
    {
        let mut tx = StagingOutput::open();
        let ds: &Vec<Vec<u8>> = &deltas_per_attempt[attempt - 1];
        let mut k: usize = 0;
        while k < ds.len()
            invariant
                0 <= k <= ds@.len(),
                tx.wf(),
                tx.is_open(),
                tx.history() == views_of(ds@).take(k as int),
            decreases ds@.len() - k,
        {
            tx.append_delta(&ds[k]);
            proof {
                assert(tx.history() =~= views_of(ds@).take(k + 1));
            }
            k = k + 1;
        }
        proof {
            assert(tx.history() =~= views_of(ds@));
        }
        let action = attempt_decision(&outcomes[attempt - 1], attempt, max_attempts);
        match action {
            AttemptAction::Commit => {
                tx.commit();
                proof {
                    txs@ = txs@.push(tx);
                }
                committed_flag = true;
                published = Some(tx.into_content());
                break;
            },
            AttemptAction::Retry(d) => {
                tx.discard();
                proof {
                    txs@ = txs@.push(tx);
                }
                sleeps.push(d);
                attempt = attempt + 1;
            },
            AttemptAction::Fail => {
                tx.discard();
                proof {
                    txs@ = txs@.push(tx);
                }
                break;
            },
        }
    }
    (JobRun { committed: committed_flag, sleeps, attempts_used: attempt, published }, txs)
}


/// Helper for the forced-retry law: from attempt `a`, `j` retryable
/// failures followed by a completed attempt give `j` backoff sleeps, one per
/// failed attempt, and a commit on attempt `a + j`.
proof fn lemma_run_from(outcomes: Seq<AttemptOutcome>, a: nat, j: nat, max: nat)
    requires
        1 <= a,
        a + j <= max <= outcomes.len(),
        forall|i: int|
            a - 1 <= i < a - 1 + j ==> outcome_retryable(#[trigger] outcomes[i]) && !(outcomes[i]
                is Completed),
        outcomes[a - 1 + j] is Completed,
    ensures
        run_spec(outcomes, a, max).0 == true,
        run_spec(outcomes, a, max).1.len() == j,
        run_spec(outcomes, a, max).2 == a + j,
        forall|i: int|
            0 <= i < j ==> run_spec(outcomes, a, max).1[i] == backoff_spec(
                (a + i) as nat,
                BACKOFF_BASE_MS as nat,
                BACKOFF_FACTOR as nat,
                BACKOFF_MAX_MS as nat,
            ),
    decreases j,
{
    if j == 0 {
    } else {
        lemma_run_from(outcomes, a + 1, (j - 1) as nat, max);
        let d = backoff_spec(
            a,
            BACKOFF_BASE_MS as nat,
            BACKOFF_FACTOR as nat,
            BACKOFF_MAX_MS as nat,
        ) as u64;
        let t = run_spec(outcomes, a + 1, max);
        assert(run_spec(outcomes, a, max).1 =~= seq![d] + t.1);
        assert(backoff_spec(
            a,
            BACKOFF_BASE_MS as nat,
            BACKOFF_FACTOR as nat,
            BACKOFF_MAX_MS as nat,
        ) <= BACKOFF_MAX_MS);
    }
}

/// Forcing a retryable failure on attempts `1..=k` and success on attempt
/// `k + 1` (with `k` below the attempt ceiling) yields exactly `k` backoff
/// sleeps with non-decreasing delays up to the cap, and a committed job.
pub proof fn lemma_forced_retries_then_success(outcomes: Seq<AttemptOutcome>, k: nat, max: nat)
    requires
        k < max <= outcomes.len(),
        forall|i: int|
            0 <= i < k ==> outcome_retryable(#[trigger] outcomes[i]) && !(outcomes[i]
                is Completed),
        outcomes[k as int] is Completed,
    ensures
        run_spec(outcomes, 1, max).0 == true,
        run_spec(outcomes, 1, max).1.len() == k,
        run_spec(outcomes, 1, max).2 == k + 1,
        forall|i: int|
            0 <= i < k ==> run_spec(outcomes, 1, max).1[i] == backoff_spec(
                (i + 1) as nat,
                BACKOFF_BASE_MS as nat,
                BACKOFF_FACTOR as nat,
                BACKOFF_MAX_MS as nat,
            ),
        forall|i: int|
            0 <= i < k - 1 ==> #[trigger] run_spec(outcomes, 1, max).1[i] <= run_spec(
                outcomes,
                1,
                max,
            ).1[i + 1],
{
    lemma_run_from(outcomes, 1, k, max);
    assert forall|i: int| 0 <= i < k - 1 implies #[trigger] run_spec(outcomes, 1, max).1[i]
        <= run_spec(outcomes, 1, max).1[i + 1] by {
        crate::retry::lemma_backoff_monotone(
            (i + 1) as nat,
            BACKOFF_BASE_MS as nat,
            BACKOFF_FACTOR as nat,
            BACKOFF_MAX_MS as nat,
        );
    }
}


// What reqwest reports about a failed send or a failed stream read. Only
// the boolean classifiers are relied on, so that failures can be routed to
// the retry policy.
#[verifier::external_type_specification]
#[verifier::external_body]
pub struct ExReqwestError(reqwest::Error);

/// Relies on reqwest::Error::is_timeout: whether the error is related to a
/// timeout. Nothing further is assumed of the answer.
pub assume_specification[ reqwest::Error::is_timeout ](e: &reqwest::Error) -> bool;

/// Relies on reqwest::Error::is_connect: whether the error is related to
/// connecting. Nothing further is assumed of the answer.
pub assume_specification[ reqwest::Error::is_connect ](e: &reqwest::Error) -> bool;

/// Relies on reqwest::Error::is_request: whether the error is related to
/// the request. Nothing further is assumed of the answer.
pub assume_specification[ reqwest::Error::is_request ](e: &reqwest::Error) -> bool;

/// The transport kind drawn from the three classifier answers: the first of
/// timeout, connect and request that holds, anything else being terminal.
pub open spec fn transport_kind_spec(timeout: bool, connect: bool, request: bool) -> TransportKind {
    if timeout {
        TransportKind::Timeout
    } else if connect {
        TransportKind::Connect
    } else if request {
        TransportKind::Request
    } else {
        TransportKind::Other
    }
}

pub fn transport_kind_from(timeout: bool, connect: bool, request: bool) -> (r: TransportKind)
    ensures
        r == transport_kind_spec(timeout, connect, request),
{
    if timeout {
        TransportKind::Timeout
    } else if connect {
        TransportKind::Connect
    } else if request {
        TransportKind::Request
    } else {
        TransportKind::Other
    }
}

/// Whether a failure with these classifier answers is worth retrying:
/// exactly when it reports timeout, connect or request.
pub fn should_retry_flags(timeout: bool, connect: bool, request: bool) -> (r: bool)
    ensures
        r == transport_retryable(transport_kind_spec(timeout, connect, request)),
{
    is_retryable_transport(transport_kind_from(timeout, connect, request))
}

/// The transport classification of a failed send or stream read. What the
/// error's classifiers answer cannot be stated here (the error is opaque);
/// the mapping from their answers is `transport_kind_spec`, proved on
/// `transport_kind_from`.
pub fn classify_transport_error(e: &reqwest::Error) -> TransportKind {
    transport_kind_from(e.is_timeout(), e.is_connect(), e.is_request())
}

/// Whether a failed send or stream read is worth retrying: exactly when the
/// error reports timeout, connect or request, per `should_retry_flags`.
pub fn should_retry_error(e: &reqwest::Error) -> bool {
    should_retry_flags(e.is_timeout(), e.is_connect(), e.is_request())
}

} // verus!
