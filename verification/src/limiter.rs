//! Dual-resource rate limiter: a request gate enforcing a minimum spacing
//! between grants, and a byte gate bounding bytes granted per one-second epoch.
//!
//! The limiter is modelled as a deterministic state machine over millisecond
//! timestamps. Each `*_step` call either grants immediately or reports how
//! long the caller must wait before retrying; the caller performs the actual
//! sleep and calls again with a later clock reading.

use vstd::prelude::*;

verus! {

pub const EPOCH_MS: u64 = 1000;

pub struct RateLimiter {
    /// Minimum spacing between request grants, in ms; `None` = unthrottled.
    pub min_interval_ms: Option<u64>,
    /// Time of the last granted request, if any.
    pub last_grant_ms: Option<u64>,
    /// Byte budget per epoch; `None` = unthrottled.
    pub bytes_per_sec: Option<u64>,
    /// Start of the current one-second epoch.
    pub epoch_start_ms: u64,
    /// Bytes granted within the current epoch.
    pub bytes_in_epoch: u64,
}

impl RateLimiter {
    /// The byte counter never exceeds the epoch budget.
    pub open spec fn wf(self) -> bool {
        match self.bytes_per_sec {
            Some(limit) => self.bytes_in_epoch <= limit,
            None => self.bytes_in_epoch == 0,
        }
    }

    pub fn new(min_interval_ms: Option<u64>, bytes_per_sec: Option<u64>, now_ms: u64) -> (r: Self)
        ensures
            r.wf(),
            r.min_interval_ms == min_interval_ms,
            r.bytes_per_sec == bytes_per_sec,
            r.last_grant_ms is None,
            r.epoch_start_ms == now_ms,
            r.bytes_in_epoch == 0,
    {
        RateLimiter {
            min_interval_ms,
            last_grant_ms: None,
            bytes_per_sec,
            epoch_start_ms: now_ms,
            bytes_in_epoch: 0,
        }
    }

    /// When the next request is due, given the previous grant time.
    pub open spec fn request_due(self, now_ms: u64) -> int {
        match (self.min_interval_ms, self.last_grant_ms) {
            (Some(interval), Some(last)) => if last + interval <= u64::MAX {
                last + interval
            } else {
                u64::MAX as int
            },
            _ => now_ms as int,
        }
    }

    /// One check-and-update of the request gate. `None` means the request is
    /// granted now; `Some(w)` means the caller must wait `w` ms and retry.
    pub fn acquire_request_step(&mut self, now_ms: u64) -> (r: Option<u64>)
        requires
            old(self).wf(),
        ensures
            final(self).wf(),
            final(self).min_interval_ms == old(self).min_interval_ms,
            final(self).bytes_per_sec == old(self).bytes_per_sec,
            final(self).epoch_start_ms == old(self).epoch_start_ms,
            final(self).bytes_in_epoch == old(self).bytes_in_epoch,
            old(self).min_interval_ms is None ==> r is None && *final(self) == *old(self),
            old(self).min_interval_ms is Some ==> {
                let due = old(self).request_due(now_ms);
                if now_ms >= due {
                    &&& r is None
                    &&& final(self).last_grant_ms == Some(now_ms)
                } else {
                    &&& r == Some((due - now_ms) as u64)
                    &&& final(self).last_grant_ms == old(self).last_grant_ms
                }
            },
            // a grant never comes earlier than one full interval after the
            // previous one
            r is None && old(self).min_interval_ms is Some && old(self).last_grant_ms is Some
                ==> now_ms >= old(self).last_grant_ms->0 + old(self).min_interval_ms->0
                    || old(self).last_grant_ms->0 + old(self).min_interval_ms->0 > u64::MAX,
    {
        let interval = match self.min_interval_ms {
            Some(i) => i,
            None => {
                return None;
            },
        };
        let due: u64 = match self.last_grant_ms {
            Some(last) => match last.checked_add(interval) {
                Some(d) => d,
                None => u64::MAX,
            },
            None => now_ms,
        };
        if now_ms >= due {
            self.last_grant_ms = Some(now_ms);
            None
        } else {
            Some(due - now_ms)
        }
    }

    /// One check-and-update of the byte gate for a request of `need` bytes.
    /// `None` means the bytes are granted now; `Some(w)` means the caller must
    /// wait `w` ms for the epoch boundary and retry.
    pub fn acquire_bytes_step(&mut self, need: u64, now_ms: u64) -> (r: Option<u64>)
        requires
            old(self).wf(),
            now_ms >= old(self).epoch_start_ms,
            now_ms + EPOCH_MS <= u64::MAX,
        ensures
            final(self).wf(),
            final(self).min_interval_ms == old(self).min_interval_ms,
            final(self).bytes_per_sec == old(self).bytes_per_sec,
            final(self).last_grant_ms == old(self).last_grant_ms,
            old(self).bytes_per_sec is None ==> r is None && *final(self) == *old(self),
            old(self).bytes_per_sec is Some ==> {
                let limit = old(self).bytes_per_sec->0;
                let rolled = now_ms - old(self).epoch_start_ms >= EPOCH_MS;
                let base = if rolled { 0 } else { old(self).bytes_in_epoch as int };
                let start = if rolled { now_ms as int } else { old(self).epoch_start_ms as int };
                &&& final(self).epoch_start_ms == start
                &&& if base + need <= limit {
                    &&& r is None
                    &&& final(self).bytes_in_epoch == base + need
                } else {
                    &&& r == Some((start + EPOCH_MS - now_ms) as u64)
                    &&& final(self).bytes_in_epoch == base
                }
            },
            final(self).epoch_start_ms >= old(self).epoch_start_ms,
    {
        let limit = match self.bytes_per_sec {
            Some(l) => l,
            None => {
                return None;
            },
        };
        if now_ms - self.epoch_start_ms >= EPOCH_MS {
            self.epoch_start_ms = now_ms;
            self.bytes_in_epoch = 0;
        }
        if need <= limit && self.bytes_in_epoch <= limit - need {
            self.bytes_in_epoch = self.bytes_in_epoch + need;
            None
        } else {
            Some(self.epoch_start_ms + EPOCH_MS - now_ms)
        }
    }
}

/// Timestamps at least one interval apart, each from the one before.
pub open spec fn spaced(ts: Seq<u64>, interval_ms: u64) -> bool {
    forall|i: int| 1 <= i < ts.len() ==> #[trigger] ts[i] >= ts[i - 1] + interval_ms
}

/// With a minimum spacing of `interval_ms` between grants, issuing the
/// grants in `ts` in order takes at least `(ts.len() - 1) * interval_ms`
/// end to end.
pub proof fn lemma_request_spacing(ts: Seq<u64>, interval_ms: u64)
    requires
        ts.len() >= 1,
        spaced(ts, interval_ms),
    ensures
        ts.last() >= ts[0] + (ts.len() - 1) * interval_ms,
    decreases ts.len(),
{
    if ts.len() == 1 {
    } else {
        let prefix = ts.drop_last();
        assert(spaced(prefix, interval_ms)) by {
            assert(forall|i: int| 1 <= i < prefix.len() ==> #[trigger] prefix[i] == ts[i]
                && prefix[i - 1] == ts[i - 1]);
        }
        lemma_request_spacing(prefix, interval_ms);
        assert(ts.last() >= prefix.last() + interval_ms);
        let n: int = ts.len() as int;
        assert((n - 1) * interval_ms == (n - 2) * interval_ms + interval_ms) by (nonlinear_arith);
    }
}

/// Sum of a sequence of byte requests.
pub open spec fn sum_of(s: Seq<u64>) -> int
    decreases s.len(),
{
    if s.len() == 0 {
        0
    } else {
        sum_of(s.drop_last()) + s.last()
    }
}

/// Byte grants within one epoch never exceed the budget: if the counter held
/// `base` at some point in an epoch and each of the grants in `needs` fit the
/// budget when it was made, the whole sequence sums to at most the budget.
pub proof fn lemma_epoch_byte_bound(base: int, needs: Seq<u64>, limit: int)
    requires
        0 <= base <= limit,
        forall|i: int| 0 <= i < needs.len() ==> base + #[trigger] sum_of(needs.take(i + 1)) <= limit,
    ensures
        base + sum_of(needs) <= limit,
{
    if needs.len() > 0 {
        let n: int = needs.len() as int;
        assert(base + sum_of(needs.take((n - 1) + 1)) <= limit);
        assert(needs.take(n) =~= needs);
    }
}

} // verus!
