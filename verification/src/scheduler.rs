//! Fair dispatch of two job classes (normal and long-running) to a worker
//! pool. Workers alternate their preferred queue per dispatch cycle: the
//! preferred queue is polled first, the other as a fallback, so neither
//! class is starved while the other still holds work. Completion counters
//! and the long-channel timeout widening live here too.

use vstd::prelude::*;
use vstd::seq_lib::{to_multiset_build, to_multiset_remove};

verus! {

/// One unit of work: a source to read, a destination to publish, its
/// effective timeouts, and its class.
#[derive(Clone, Debug)]
pub struct Job {
    pub source: String,
    pub dest: String,
    pub request_timeout_secs: u64,
    pub idle_timeout_secs: u64,
    pub long: bool,
}

/// Whether the long queue is preferred on this dispatch cycle: the
/// preference alternates with the cycle counter.
pub open spec fn prefer_long_spec(turn: nat) -> bool {
    turn % 2 == 0
}

pub fn prefer_long(turn: u64) -> (r: bool)
    ensures
        r == prefer_long_spec(turn as nat),
{
    turn % 2 == 0
}

/// Which queue serves the next job: the preferred one if it holds work,
/// else the other, else none. `Some(true)` picks the long queue.
pub open spec fn pick_spec(prefer_long: bool, normal_len: nat, long_len: nat) -> Option<bool> {
    if prefer_long {
        if long_len > 0 {
            Some(true)
        } else if normal_len > 0 {
            Some(false)
        } else {
            None
        }
    } else {
        if normal_len > 0 {
            Some(false)
        } else if long_len > 0 {
            Some(true)
        } else {
            None
        }
    }
}

pub fn pick_queue(prefer_long: bool, normal_len: usize, long_len: usize) -> (r: Option<bool>)
    ensures
        r == pick_spec(prefer_long, normal_len as nat, long_len as nat),
{
    if prefer_long {
        if long_len > 0 {
            Some(true)
        } else if normal_len > 0 {
            Some(false)
        } else {
            None
        }
    } else {
        if normal_len > 0 {
            Some(false)
        } else if long_len > 0 {
            Some(true)
        } else {
            None
        }
    }
}

/// A worker with work available is never sent away, and with both classes
/// non-empty the preferred class is served; as the preference alternates
/// every cycle, each non-empty class is served at least every second
/// dispatch - neither class is starved.
pub proof fn lemma_pick_fair(turn: nat, normal_len: nat, long_len: nat)
    ensures
        (pick_spec(prefer_long_spec(turn), normal_len, long_len) is None) <==> (normal_len == 0
            && long_len == 0),
        normal_len > 0 && long_len > 0 ==> pick_spec(prefer_long_spec(turn), normal_len, long_len)
            == Some(prefer_long_spec(turn)),
        prefer_long_spec(turn) != prefer_long_spec(turn + 1),
{
}

/// The order in which two queues drain under alternating preference: each
/// cycle serves the head of the preferred queue, or of the other when the
/// preferred one is empty, and flips the preference.
pub open spec fn dispatch_spec(normal: Seq<Job>, long: Seq<Job>, prefer_long_now: bool) -> Seq<
    Job,
>
    decreases normal.len() + long.len(),
{
    match pick_spec(prefer_long_now, normal.len(), long.len()) {
        None => Seq::empty(),
        Some(true) => seq![long[0]] + dispatch_spec(normal, long.drop_first(), !prefer_long_now),
        Some(false) => seq![normal[0]] + dispatch_spec(
            normal.drop_first(),
            long,
            !prefer_long_now,
        ),
    }
}

/// Dispatch every queued job of both classes, alternating the preferred
/// queue each cycle, until both queues are drained: the dispatch order
/// contains exactly the submitted jobs of both classes, so every job of
/// either class is eventually dispatched.
pub fn dispatch_all(normal: Vec<Job>, long: Vec<Job>, first_turn: u64) -> (order: Vec<Job>)
    requires
        normal@.len() + long@.len() <= usize::MAX,
    ensures
        order@ == dispatch_spec(normal@, long@, prefer_long_spec(first_turn as nat)),
        order@.len() == normal@.len() + long@.len(),
        order@.to_multiset() == normal@.to_multiset().add(long@.to_multiset()),
{
    let mut normal = normal;
    let mut long = long;
    let mut order: Vec<Job> = Vec::new();
    let mut turn = first_turn;
    let ghost all = normal@.to_multiset().add(long@.to_multiset());
    let ghost total = normal@.len() + long@.len();
    let ghost whole = dispatch_spec(normal@, long@, prefer_long_spec(first_turn as nat));
    proof {
        Seq::<Job>::empty().to_multiset_ensures();
    }
    while normal.len() > 0 || long.len() > 0
        invariant
            order@.len() + normal@.len() + long@.len() == total,
            total <= usize::MAX,
            order@.to_multiset().add(normal@.to_multiset()).add(long@.to_multiset()) =~= all,
            whole =~= order@ + dispatch_spec(normal@, long@, prefer_long_spec(turn as nat)),
        decreases normal@.len() + long@.len(),
    {
        let ghost n_pre = normal@;
        let ghost l_pre = long@;
        let ghost t_pre = turn;
        let ghost order_before = order@;
        let take_long = match pick_queue(prefer_long(turn), normal.len(), long.len()) {
            Some(b) => b,
            None => {
                // the pick comes back empty only with both queues drained,
                // which the loop condition rules out
                proof {
                    assert(false);
                }
                false
            },
        };
        let job = if take_long {
            let ghost pre = long@;
            let j = long.remove(0);
            proof {
                broadcast use vstd::multiset::group_multiset_axioms;

                to_multiset_remove(pre, 0);
                vstd::seq_lib::to_multiset_contains(pre, pre[0]);
                assert(pre.contains(pre[0]));
            }
            j
        } else {
            let ghost pre = normal@;
            let j = normal.remove(0);
            proof {
                broadcast use vstd::multiset::group_multiset_axioms;

                to_multiset_remove(pre, 0);
                vstd::seq_lib::to_multiset_contains(pre, pre[0]);
                assert(pre.contains(pre[0]));
            }
            j
        };
        let ghost job_spec = job;
        let ghost order_pre = order@;
        order.push(job);
        proof {
            broadcast use vstd::multiset::group_multiset_axioms;

            to_multiset_build(order_pre, job_spec);
        }
        turn = if turn == u64::MAX {
            0
        } else {
            turn + 1
        };
        proof {
            let p = prefer_long_spec(t_pre as nat);
            assert(prefer_long_spec(turn as nat) == !p);
            if take_long {
                assert(l_pre.drop_first() =~= l_pre.remove(0));
                assert(dispatch_spec(n_pre, l_pre, p) =~= seq![l_pre[0]] + dispatch_spec(
                    n_pre,
                    l_pre.drop_first(),
                    !p,
                ));
                assert(order_before + dispatch_spec(n_pre, l_pre, p) =~= order@ + dispatch_spec(
                    normal@,
                    long@,
                    !p,
                ));
            } else {
                assert(n_pre.drop_first() =~= n_pre.remove(0));
                assert(dispatch_spec(n_pre, l_pre, p) =~= seq![n_pre[0]] + dispatch_spec(
                    n_pre.drop_first(),
                    l_pre,
                    !p,
                ));
                assert(order_before + dispatch_spec(n_pre, l_pre, p) =~= order@ + dispatch_spec(
                    normal@,
                    long@,
                    !p,
                ));
            }
        }
    }
    proof {
        vstd::seq_lib::to_multiset_len(normal@);
        vstd::seq_lib::to_multiset_len(long@);
        assert(order@.to_multiset() =~= all);
        assert(dispatch_spec(normal@, long@, prefer_long_spec(turn as nat)) =~= Seq::<
            Job,
        >::empty());
        assert(order@ =~= whole);
    }
    order
}

/// Monotonically increasing progress counters shared by the worker pool.
pub struct ScheduleCounters {
    pub started: u64,
    pub completed: u64,
}

impl ScheduleCounters {
    /// Completions never outrun starts.
    pub open spec fn wf(self) -> bool {
        self.completed <= self.started
    }

    pub fn new() -> (r: Self)
        ensures
            r.wf(),
            r.started == 0,
            r.completed == 0,
    {
        ScheduleCounters { started: 0, completed: 0 }
    }

    /// A worker picked up a job; returns its 1-based index.
    pub fn record_started(&mut self) -> (idx: u64)
        requires
            old(self).wf(),
            old(self).started < u64::MAX,
        ensures
            final(self).wf(),
            final(self).started == old(self).started + 1,
            final(self).completed == old(self).completed,
            idx == final(self).started,
    {
        self.started = self.started + 1;
        self.started
    }

    /// A job finished successfully; returns the new completed count.
    pub fn record_completed(&mut self) -> (done: u64)
        requires
            old(self).wf(),
            old(self).completed < old(self).started,
        ensures
            final(self).wf(),
            final(self).completed == old(self).completed + 1,
            final(self).started == old(self).started,
            done == final(self).completed,
    {
        self.completed = self.completed + 1;
        self.completed
    }
}

/// The effective timeout of a long-channel job: an explicit override wins;
/// otherwise the base timeout scaled by the multiplier (in hundredths,
/// rounded half up, a non-positive multiplier counting as one) and never
/// below the base.
pub open spec fn long_timeout_spec(
    base_secs: u64,
    override_secs: Option<u64>,
    multiplier_hundredths: u32,
) -> int {
    match override_secs {
        Some(v) => v as int,
        None => {
            let m = if multiplier_hundredths == 0 {
                100
            } else {
                multiplier_hundredths as int
            };
            let raw = (base_secs * m + 50) / 100;
            let capped = if raw > u64::MAX {
                u64::MAX as int
            } else {
                raw
            };
            if capped > base_secs {
                capped
            } else {
                base_secs as int
            }
        },
    }
}

pub fn compute_long_timeout(
    base_secs: u64,
    override_secs: Option<u64>,
    multiplier_hundredths: u32,
) -> (r: u64)
    ensures
        r == long_timeout_spec(base_secs, override_secs, multiplier_hundredths),
{
    match override_secs {
        Some(v) => v,
        None => {
            let m: u128 = if multiplier_hundredths == 0 {
                100
            } else {
                multiplier_hundredths as u128
            };
            proof {
                assert((base_secs as u128) * m <= ((u64::MAX as u128) * (u32::MAX as u128)))
                    by (nonlinear_arith)
                    requires
                        0 <= base_secs as u128 <= u64::MAX as u128,
                        0 <= m <= u32::MAX as u128,
                ;
            }
            let raw: u128 = ((base_secs as u128) * m + 50) / 100;
            let capped: u64 = if raw > u64::MAX as u128 {
                u64::MAX
            } else {
                raw as u64
            };
            if capped > base_secs {
                capped
            } else {
                base_secs
            }
        },
    }
}

} // verus!
