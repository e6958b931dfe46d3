use scope_loadgen::batch::run_batch;
use scope_loadgen::harness::{CallResult, Completion};
use scope_loadgen::outcome::{CallOutcome, Reply, ScopeStatus};
use scope_loadgen::report::AggregateReport;

fn scope_requests(count: usize) -> Vec<String> {
    vec!["hello5".to_string(); count]
}

fn reply_number(i: usize) -> Reply {
    match i % 5 {
        0 => Reply::Status(ScopeStatus::Success),
        1 => Reply::Status(ScopeStatus::ScopeExists),
        2 => Reply::Status(ScopeStatus::InvalidScopeName),
        3 => Reply::Status(ScopeStatus::Failure),
        _ => Reply::TransportFault,
    }
}

#[test]
fn empty_batch_has_no_result_and_a_report() {
    let run = run_batch(&Vec::new(), &Vec::new(), 10, 25).expect("nothing is outstanding");
    assert!(run.results.is_empty());
    assert_eq!(run.report, AggregateReport { calls: 0, total_nanos: 15 });
}

#[test]
fn batch_of_three_keeps_the_order_of_arrival() {
    let completions = vec![
        Completion { reply: Reply::Status(ScopeStatus::ScopeExists), sent_at: 12, done_at: 40 },
        Completion { reply: Reply::TransportFault, sent_at: 10, done_at: 55 },
        Completion { reply: Reply::Status(ScopeStatus::Success), sent_at: 11, done_at: 90 },
    ];
    let run = run_batch(&scope_requests(3), &completions, 10, 100).expect("one each");
    assert_eq!(
        run.results,
        vec![
            CallResult { outcome: CallOutcome::AlreadyExists, elapsed: 28 },
            CallResult { outcome: CallOutcome::TransportError, elapsed: 45 },
            CallResult { outcome: CallOutcome::Success, elapsed: 79 },
        ]
    );
    assert_eq!(run.report, AggregateReport { calls: 3, total_nanos: 90 });
}

#[test]
fn batch_yields_exactly_one_result_per_request() {
    for count in 0..60usize {
        let completions: Vec<Completion> = (0..count)
            .map(|i| Completion { reply: reply_number(i), sent_at: 5, done_at: 5 + i as u64 })
            .collect();
        let run = run_batch(&scope_requests(count), &completions, 5, 100).expect("one each");
        assert_eq!(run.results.len(), count);
        assert_eq!(run.report.calls, count);
        for (i, result) in run.results.iter().enumerate() {
            assert_eq!(*result, completions[i].result());
        }
    }
}

#[test]
fn batch_with_a_completion_missing_is_no_run() {
    let completions =
        vec![Completion { reply: Reply::Status(ScopeStatus::Success), sent_at: 0, done_at: 1 }];
    assert!(run_batch(&scope_requests(2), &completions, 0, 5).is_none());
}

#[test]
fn batch_with_a_completion_too_many_is_no_run() {
    let completions = vec![
        Completion { reply: Reply::Status(ScopeStatus::Success), sent_at: 0, done_at: 1 },
        Completion { reply: Reply::Status(ScopeStatus::Success), sent_at: 0, done_at: 2 },
    ];
    assert!(run_batch(&scope_requests(1), &completions, 0, 5).is_none());
    assert!(run_batch(&Vec::new(), &completions, 0, 5).is_none());
}

#[test]
fn failing_calls_are_results_like_the_others() {
    let completions = vec![Completion { reply: Reply::TransportFault, sent_at: 1, done_at: 2 }; 4];
    let run = run_batch(&scope_requests(4), &completions, 0, 5).expect("one each");
    assert_eq!(run.results.len(), 4);
    assert!(run.results.iter().all(|result| result.outcome == CallOutcome::TransportError));
}

#[test]
fn no_call_within_the_batch_takes_longer_than_the_batch() {
    let completions: Vec<Completion> = (0..200u64)
        .map(|i| Completion {
            reply: reply_number(i as usize),
            sent_at: 1000 + (i * 7) % 50,
            done_at: 1050 + (i * 13) % 900,
        })
        .collect();
    let run = run_batch(&scope_requests(200), &completions, 1000, 2000).expect("one each");
    assert_eq!(run.report.total_nanos, 1000);
    for result in &run.results {
        assert!(result.elapsed <= run.report.total_nanos);
    }
}

#[test]
fn call_sent_before_the_batch_started_may_outlast_it() {
    let completions =
        vec![Completion { reply: Reply::Status(ScopeStatus::Success), sent_at: 0, done_at: 100 }];
    let run = run_batch(&scope_requests(1), &completions, 60, 100).expect("one each");
    assert_eq!(run.results[0].elapsed, 100);
    assert_eq!(run.report.total_nanos, 40);
}

#[test]
fn concurrent_calls_take_as_long_as_the_slowest_not_as_their_sum() {
    let started_at: u64 = 5_000;
    let mut seed: u64 = 0x2545_f491_4f6c_dd1d;
    let mut latencies: Vec<u64> = Vec::new();
    for _ in 0..1000 {
        seed = seed.wrapping_mul(6364136223846793005).wrapping_add(1442695040888963407);
        latencies.push(1_000_000 + (seed >> 33) % 49_000_000);
    }
    let mut arrivals = latencies.clone();
    arrivals.sort();
    let completions: Vec<Completion> = arrivals
        .iter()
        .map(|latency| Completion {
            reply: Reply::Status(ScopeStatus::ScopeExists),
            sent_at: started_at,
            done_at: started_at + latency,
        })
        .collect();
    let slowest = *arrivals.last().expect("a thousand calls");
    let sum: u64 = latencies.iter().sum();
    let run = run_batch(&scope_requests(1000), &completions, started_at, started_at + slowest)
        .expect("one each");
    assert_eq!(run.results.len(), 1000);
    assert_eq!(run.report.total_nanos, slowest);
    assert!(run.report.total_nanos * 20 < sum);
    assert_eq!(run.results.iter().map(|result| result.elapsed).max(), Some(slowest));
}
