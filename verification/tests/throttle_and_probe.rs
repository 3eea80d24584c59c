use pretackler::estimator::{effective_idle_secs, LongAdapt};
use pretackler::limiter::RateLimiter;
use pretackler::probe::determine_concurrency_limit;

#[test]
fn request_gate_spaces_grants() {
    // 10 requests per second = one grant per 100 ms
    let mut l = RateLimiter::new(Some(100), None, 0);
    assert_eq!(l.acquire_request_step(0), None);
    assert_eq!(l.acquire_request_step(50), Some(50));
    assert_eq!(l.acquire_request_step(100), None);
    assert_eq!(l.acquire_request_step(150), Some(50));
    assert_eq!(l.acquire_request_step(199), Some(1));
    assert_eq!(l.acquire_request_step(230), None);
}

#[test]
fn request_gate_unthrottled_without_limit() {
    let mut l = RateLimiter::new(None, Some(10), 0);
    assert_eq!(l.acquire_request_step(0), None);
    assert_eq!(l.acquire_request_step(0), None);
}

#[test]
fn byte_gate_keeps_epoch_budget() {
    let mut l = RateLimiter::new(None, Some(10), 0);
    assert_eq!(l.acquire_bytes_step(6, 100), None);
    assert_eq!(l.acquire_bytes_step(4, 200), None);
    // the budget of this epoch is spent: wait for its boundary
    assert_eq!(l.acquire_bytes_step(1, 300), Some(700));
    // the next epoch has a fresh budget
    assert_eq!(l.acquire_bytes_step(1, 1001), None);
}

#[test]
fn byte_gate_unthrottled_without_limit() {
    let mut l = RateLimiter::new(Some(100), None, 0);
    assert_eq!(l.acquire_bytes_step(123456, 0), None);
}

#[test]
fn estimator_empty_has_no_estimate() {
    let h = LongAdapt::new();
    assert_eq!(h.p95_ms(), None);
}

#[test]
fn estimator_p95_of_uniform_samples_stays_in_range() {
    let mut h = LongAdapt::new();
    // 100 samples uniformly spread over [100ms, 200ms]
    for gap in 100..200u64 {
        h.observe(gap);
    }
    let p95 = h.p95_ms().unwrap();
    assert_eq!(p95, 194);
    assert!((100..=200).contains(&p95));
    // an idle timeout widened from it never undercuts the configured base
    assert!(effective_idle_secs(30, Some(p95)) >= 30);
}

#[test]
fn estimator_evicts_oldest_beyond_capacity() {
    let mut h = LongAdapt::new();
    for _ in 0..256 {
        h.observe(1);
    }
    for _ in 0..256 {
        h.observe(1000);
    }
    // the low early samples have been evicted
    assert_eq!(h.p95_ms(), Some(1000));
}

#[test]
fn adaptive_idle_widens_but_never_shrinks() {
    // p95 of 100 s widened by a fifth: 120 s beats a 30 s base
    assert_eq!(effective_idle_secs(30, Some(100000)), 120);
    // a small estimate leaves the base in force
    assert_eq!(effective_idle_secs(30, Some(194)), 30);
    // no estimate: the base stands
    assert_eq!(effective_idle_secs(30, None), 30);
    // zero base means unbounded and is never widened
    assert_eq!(effective_idle_secs(0, Some(100000)), 0);
}

#[test]
fn concurrency_override_is_clamped_to_job_count() {
    assert_eq!(determine_concurrency_limit(Some(2), 10, 64, 1 << 30, 0), 2);
    assert_eq!(determine_concurrency_limit(Some(50), 10, 64, 1 << 30, 0), 10);
    assert_eq!(determine_concurrency_limit(Some(0), 10, 64, 1 << 30, 0), 1);
}

#[test]
fn concurrency_heuristic_takes_least_resource_limit() {
    // 4 cores -> ceil(4 * 0.85) = 4 workers; plenty of memory; an idle
    // network sample defers to the larger of the other two limits
    let avail_kb = 100 * 64 * 1024;  // room for 100 tasks
    assert_eq!(determine_concurrency_limit(None, 1000, 4, avail_kb, 0), 4);
    // scarce memory wins instead: room for exactly one task
    assert_eq!(determine_concurrency_limit(None, 1000, 64, 64 * 1024, 0), 1);
}

#[test]
fn concurrency_uses_bandwidth_sample_when_meaningful() {
    // 4 MiB moved in the half-second window = 8 MiB/s; at 512 KiB per task
    // that supports ceil(16 * 0.85) = 14 workers
    let avail_kb = 100 * 64 * 1024;
    assert_eq!(determine_concurrency_limit(None, 1000, 64, avail_kb, 4 * 1024 * 1024), 14);
}
