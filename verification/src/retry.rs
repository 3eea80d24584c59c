//! Retry policy: classification of failures as retryable or terminal, and
//! exponential backoff with a cap.

use vstd::prelude::*;

verus! {

/// An HTTP status is worth retrying when the server is throttling (429) or
/// failing transiently (any 5xx).
pub open spec fn retryable_status(code: u16) -> bool {
    code == 429 || (500 <= code < 600)
}

pub fn is_retryable_status(code: u16) -> (r: bool)
    ensures
        r == retryable_status(code),
{
    code == 429 || (500 <= code && code < 600)
}

/// `base_ms` scaled by `factor` once per failure already suffered.
pub open spec fn scaled_delay(base_ms: nat, factor: nat, failures: nat) -> nat
    decreases failures,
{
    if failures == 0 {
        base_ms
    } else {
        scaled_delay(base_ms, factor, (failures - 1) as nat) * factor
    }
}

/// The backoff slept after failed attempt `attempt` (1-based):
/// `base_ms * factor^(attempt - 1)`, capped at `max_ms`.
pub open spec fn backoff_spec(attempt: nat, base_ms: nat, factor: nat, max_ms: nat) -> nat
    recommends
        attempt >= 1,
{
    let raw = scaled_delay(base_ms, factor, (attempt - 1) as nat);
    if raw <= max_ms {
        raw
    } else {
        max_ms
    }
}

pub fn backoff_delay_ms(attempt: usize, base_ms: u64, factor: u64, max_ms: u64) -> (r: u64)
    requires
        attempt >= 1,
    ensures
        r == backoff_spec(attempt as nat, base_ms as nat, factor as nat, max_ms as nat),
{
    let mut cur: u64 = base_ms;
    let mut i: usize = 1;
    while i < attempt
        invariant
            1 <= i <= attempt,
            cur == scaled_delay(base_ms as nat, factor as nat, (i - 1) as nat)
                || (cur == u64::MAX
                    && scaled_delay(base_ms as nat, factor as nat, (i - 1) as nat) >= u64::MAX),
        decreases attempt - i,
    {
        let ghost prev = scaled_delay(base_ms as nat, factor as nat, (i - 1) as nat);
        proof {
            assert(scaled_delay(base_ms as nat, factor as nat, i as nat) == prev * factor);
        }
        cur = match cur.checked_mul(factor) {
            Some(v) => {
                proof {
                    if cur != prev {
                        // cur saturated at u64::MAX and the product still fits,
                        // so factor is 0 or 1; either way the true delay and the
                        // computed one stay in the stated relation.
                        assert(prev >= u64::MAX);
                        assert(cur == u64::MAX);
                        if factor == 0 {
                            assert(prev * factor == 0) by (nonlinear_arith)
                                requires
                                    factor == 0,
                            ;
                        } else {
                            assert(factor == 1) by (nonlinear_arith)
                                requires
                                    cur * factor <= u64::MAX,
                                    cur == u64::MAX,
                                    factor >= 1,
                            ;
                            assert(prev * factor >= u64::MAX) by (nonlinear_arith)
                                requires
                                    prev >= u64::MAX,
                                    factor == 1,
                            ;
                        }
                    }
                }
                v
            },
            None => {
                proof {
                    assert(cur * factor > u64::MAX);
                    assert(prev * factor >= cur * factor) by (nonlinear_arith)
                        requires
                            prev >= cur >= 0,
                            factor >= 0,
                    ;
                }
                u64::MAX
            },
        };
        i = i + 1;
    }
    if cur <= max_ms {
        cur
    } else {
        max_ms
    }
}

/// With a growth factor of at least one, backoff delays never decrease from
/// one attempt to the next (up to the cap).
pub proof fn lemma_backoff_monotone(attempt: nat, base_ms: nat, factor: nat, max_ms: nat)
    requires
        attempt >= 1,
        factor >= 1,
    ensures
        backoff_spec(attempt, base_ms, factor, max_ms)
            <= backoff_spec(attempt + 1, base_ms, factor, max_ms),
{
    let prev = scaled_delay(base_ms, factor, (attempt - 1) as nat);
    assert(scaled_delay(base_ms, factor, attempt) == prev * factor);
    assert(prev * factor >= prev) by (nonlinear_arith)
        requires
            prev >= 0,
            factor >= 1,
    ;
}

} // verus!
