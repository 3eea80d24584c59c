//! Adaptive idle-latency estimator for long-running jobs: a bounded FIFO
//! history of inter-chunk gaps (in milliseconds) and a 95th-percentile query
//! used to widen the idle timeout of slow-but-healthy streams.

use vstd::prelude::*;
use vstd::relations::sorted_by;
use vstd::seq_lib::lemma_sorted_unique;
use std::collections::VecDeque;

verus! {

/// Capacity bound of the gap history; the oldest sample is evicted when full.
pub const HISTORY_CAP: usize = 256;

/// Ascending order over the whole sequence.
pub open spec fn sorted_gaps(s: Seq<u64>) -> bool {
    forall|p: int, q: int| 0 <= p < q < s.len() ==> #[trigger] s[p] <= #[trigger] s[q]
}

/// The canonical ascending ordering of a sample history.
pub open spec fn sorted_view(s: Seq<u64>) -> Seq<u64> {
    s.sort_by(|x: u64, y: u64| x <= y)
}

/// Index of the 95th-percentile rank among `n` samples: `ceil(0.95 * n) - 1`.
pub open spec fn p95_rank(n: nat) -> int {
    (95 * n + 99) / 100 - 1
}

/// The 95th-percentile gap of a sample history, or `None` when it is empty.
pub open spec fn p95_of(s: Seq<u64>) -> Option<u64> {
    if s.len() == 0 {
        None
    } else {
        Some(sorted_view(s)[p95_rank(s.len())])
    }
}

/// Bounded history of inter-chunk arrival gaps shared by the long channel.
pub struct LongAdapt {
    samples_ms: VecDeque<u64>,
}

impl LongAdapt {
    pub closed spec fn view(self) -> Seq<u64> {
        self.samples_ms@
    }

    /// The capacity bound is never exceeded.
    pub open spec fn wf(self) -> bool {
        self.view().len() <= HISTORY_CAP
    }

    pub fn new() -> (r: Self)
        ensures
            r.wf(),
            r.view() == Seq::<u64>::empty(),
    {
        LongAdapt { samples_ms: VecDeque::new() }
    }

    /// Record one inter-chunk gap, evicting the oldest sample when the
    /// history is full.
    pub fn observe(&mut self, gap_ms: u64)
        requires
            old(self).wf(),
        ensures
            final(self).wf(),
            final(self).view() == if old(self).view().len() >= HISTORY_CAP {
                old(self).view().drop_first().push(gap_ms)
            } else {
                old(self).view().push(gap_ms)
            },
    {
        if self.samples_ms.len() >= HISTORY_CAP {
            self.samples_ms.pop_front();
        }
        self.samples_ms.push_back(gap_ms);
    }

    /// The 95th-percentile of the recorded gaps, or `None` with no samples.
    pub fn p95_ms(&self) -> (r: Option<u64>)
        requires
            self.wf(),
        ensures
            r == p95_of(self.view()),
    {
        let n = self.samples_ms.len();
        if n == 0 {
            return None;
        }
        let mut flat: Vec<u64> = Vec::new();
        let mut i: usize = 0;
        while i < n
            invariant
                n == self.view().len(),
                0 <= i <= n,
                flat@ == self.view().take(i as int),
            decreases n - i,
        {
            flat.push(self.samples_ms[i]);
            proof {
                assert(flat@ =~= self.view().take(i + 1));
            }
            i = i + 1;
        }
        proof {
            assert(flat@ =~= self.view());
        }
        let sorted = sort_gaps(&flat);
        proof {
            assert(sorted_by(sorted@, |x: u64, y: u64| x <= y));
            self.view().lemma_sort_by_ensures(|x: u64, y: u64| x <= y);
            lemma_sorted_unique(sorted@, sorted_view(self.view()), |x: u64, y: u64| x <= y);
            assert(1 <= (95 * n + 99) / 100 <= n) by (nonlinear_arith)
                requires 1 <= n,
            ;
        }
        let rank: usize = (95 * n + 99) / 100 - 1;
        Some(sorted[rank])
    }
}

/// Ascending copy of a gap vector.
fn sort_gaps(v: &Vec<u64>) -> (r: Vec<u64>)
    ensures
        sorted_gaps(r@),
        r@.to_multiset() == v@.to_multiset(),
        r@.len() == v@.len(),
{
    let mut out: Vec<u64> = Vec::new();
    let n = v.len();
    let mut i: usize = 0;
    proof {
        assert(v@.take(0) =~= Seq::<u64>::empty());
        Seq::<u64>::empty().to_multiset_ensures();
    }
    while i < n
        invariant
            0 <= i <= n,
            n == v@.len(),
            sorted_gaps(out@),
            out@.to_multiset() == v@.take(i as int).to_multiset(),
            out@.len() == i,
        decreases n - i,
    {
        let x = v[i];
        let mut j: usize = out.len();
        while j > 0 && out[j - 1] > x
            invariant
                0 <= j <= out@.len(),
                forall|k: int| j <= k < out@.len() ==> #[trigger] out@[k] > x,
            decreases j,
        {
            j = j - 1;
        }
        let ghost pre = out@;
        out.insert(j, x);
        proof {
            vstd::seq_lib::to_multiset_insert(pre, j as int, x);
            assert(v@.take(i + 1) =~= v@.take(i as int).push(x));
            vstd::seq_lib::to_multiset_build(v@.take(i as int), x);
            assert(out@.to_multiset() =~= v@.take(i + 1).to_multiset());
            let post = out@;
            assert(forall|k: int| 0 <= k < j ==> #[trigger] post[k] == pre[k]);
            assert(post[j as int] == x);
            assert(forall|k: int| j < k < post.len() ==> #[trigger] post[k] == pre[k - 1]);
            // the scanned suffix of the old vector all exceeds x, and the
            // prefix (by sortedness, through the stopping element) is at most x
            assert(forall|k: int| 0 <= k < j ==> #[trigger] pre[k] <= x) by {
                if j > 0 {
                    assert(pre[j - 1] <= x);
                }
            }
            assert forall|p: int, q: int| 0 <= p < q < post.len() implies post[p] <= post[q] by {
                if q < j {
                    assert(pre[p] <= pre[q]);
                } else if p > j {
                    assert(pre[p - 1] <= pre[q - 1]);
                } else if p == j && q > j {
                    assert(pre[q - 1] > x);
                } else if q == j {
                    assert(pre[p] <= x);
                } else {
                    // p < j < q: both endpoints come from the old vector
                    assert(post[p] == pre[p] && post[q] == pre[q - 1]);
                    assert(pre[p] <= x);
                    assert(pre[q - 1] > x);
                }
            }
        }
        i = i + 1;
    }
    proof {
        assert(v@.take(n as int) =~= v@);
    }
    out
}

/// With every recorded gap inside `[lo, hi]`, the 95th-percentile estimate
/// exists and also lies inside `[lo, hi]`.
pub proof fn lemma_p95_in_range(s: Seq<u64>, lo: u64, hi: u64)
    requires
        s.len() > 0,
        forall|i: int| 0 <= i < s.len() ==> lo <= #[trigger] s[i] <= hi,
    ensures
        p95_of(s) is Some,
        lo <= p95_of(s)->0 <= hi,
{
    broadcast use vstd::seq_lib::group_to_multiset_ensures;

    s.lemma_sort_by_ensures(|x: u64, y: u64| x <= y);
    let t = sorted_view(s);
    assert(s.to_multiset().len() == s.len());
    assert(t.to_multiset().len() == t.len());
    assert(t.len() == s.len());
    assert(1 <= (95 * s.len() + 99) / 100 <= s.len()) by (nonlinear_arith)
        requires 1 <= s.len(),
    ;
    let v = t[p95_rank(s.len())];
    assert(t.to_multiset().count(v) > 0);
    assert(s.contains(v));
    let i = choose|i: int| 0 <= i < s.len() && s[i] == v;
    assert(lo <= s[i] <= hi);
}

/// Ceiling of `p95_ms` widened by one fifth, in whole seconds.
pub open spec fn widened_secs(p95_ms: nat) -> int {
    ((p95_ms * 12 + 9999) / 10000) as int
}

/// The effective idle timeout of a long-channel job under adaptive idle:
/// the configured timeout, widened to 1.2 times the 95th-percentile gap when
/// an estimate exists. A configured timeout of zero means "unbounded" and is
/// never widened.
pub open spec fn effective_idle_spec(base_idle_secs: u64, p95: Option<u64>) -> int {
    match p95 {
        Some(ms) => if base_idle_secs == 0 {
            0
        } else if widened_secs(ms as nat) > base_idle_secs {
            widened_secs(ms as nat)
        } else {
            base_idle_secs as int
        },
        None => base_idle_secs as int,
    }
}

pub fn effective_idle_secs(base_idle_secs: u64, p95_ms: Option<u64>) -> (r: u64)
    ensures
        r == effective_idle_spec(base_idle_secs, p95_ms),
        r >= base_idle_secs || base_idle_secs == 0,
{
    match p95_ms {
        Some(ms) => {
            if base_idle_secs == 0 {
                return 0;
            }
            let extra128: u128 = ((ms as u128) * 12 + 9999) / 10000;
            proof {
                assert((ms as u128) * 12 + 9999 < (1u128 << 68)) by (bit_vector)
                    requires ms <= u64::MAX,
                ;
                assert(extra128 <= u64::MAX);
            }
            let extra: u64 = extra128 as u64;
            if extra > base_idle_secs {
                extra
            } else {
                base_idle_secs
            }
        },
        None => base_idle_secs,
    }
}

} // verus!
