use pretackler::executor::{run_job, AttemptOutcome, MAX_ATTEMPTS};
use pretackler::probe::determine_concurrency_limit;
use pretackler::scheduler::{dispatch_all, Job, ScheduleCounters};

#[test]
fn ten_jobs_at_ceiling_two_all_commit_first_attempt() {
    // ten jobs, a user-forced concurrency ceiling of two
    let workers = determine_concurrency_limit(Some(2), 10, 8, 1 << 24, 0);
    assert_eq!(workers, 2);

    let mut normal: Vec<Job> = Vec::new();
    let mut long: Vec<Job> = Vec::new();
    for i in 0..10 {
        let name = format!("job-{}", i);
        let j = Job {
            source: name.clone(),
            dest: name,
            request_timeout_secs: 45,
            idle_timeout_secs: 30,
            long: i % 3 == 0,
        };
        if j.long {
            long.push(j);
        } else {
            normal.push(j);
        }
    }
    let order = dispatch_all(normal, long, 0);
    assert_eq!(order.len(), 10);

    let mut counters = ScheduleCounters::new();
    let outcomes = vec![AttemptOutcome::Completed; MAX_ATTEMPTS];
    let mut committed_files: Vec<(String, Vec<u8>)> = Vec::new();
    for j in &order {
        counters.record_started();
        let mut deltas: Vec<Vec<Vec<u8>>> = Vec::new();
        // three deltas per stream
        deltas.push(vec![
            j.dest.clone().into_bytes(),
            b": part".to_vec(),
            b" done".to_vec(),
        ]);
        for _ in 1..MAX_ATTEMPTS {
            deltas.push(Vec::new());
        }
        let (run, _) = run_job(&outcomes, &deltas, MAX_ATTEMPTS);
        // every job succeeds on its first attempt, with no backoff sleeps
        // and nothing left in staging
        assert!(run.committed);
        assert_eq!(run.attempts_used, 1);
        assert!(run.sleeps.is_empty());
        let mut expect = j.dest.clone().into_bytes();
        expect.extend_from_slice(b": part done");
        assert_eq!(run.published, Some(expect.clone()));
        committed_files.push((j.dest.clone(), expect));
        counters.record_completed();
    }

    // exactly ten committed outputs, counters in step
    assert_eq!(committed_files.len(), 10);
    assert_eq!(counters.started, 10);
    assert_eq!(counters.completed, 10);
}
