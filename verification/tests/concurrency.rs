use std::time::{Duration, Instant};

use futures::stream::{FuturesUnordered, StreamExt};
use scope_loadgen::harness::{Action, Completion, Event, Harness, Phase};
use scope_loadgen::outcome::{Reply, ScopeStatus};

fn reading(origin: &Instant) -> u64 {
    u64::try_from(origin.elapsed().as_nanos()).unwrap_or(u64::MAX)
}

#[test]
fn thousand_sleeping_calls_finish_in_about_the_longest_sleep() {
    let runtime = tokio::runtime::Builder::new_current_thread()
        .enable_time()
        .build()
        .expect("a runtime");
    let origin = Instant::now();
    let mut seed: u64 = 0x9e37_79b9_7f4a_7c15;
    let mut latencies: Vec<u64> = Vec::new();
    for _ in 0..1000 {
        seed = seed.wrapping_mul(6364136223846793005).wrapping_add(1442695040888963407);
        latencies.push(5 + (seed >> 33) % 96);
    }
    let longest = *latencies.iter().max().expect("a thousand calls");
    let sum: u64 = latencies.iter().sum();

    let mut calls = FuturesUnordered::new();
    for latency in &latencies {
        let origin = &origin;
        let latency = *latency;
        calls.push(async move {
            let sent_at = reading(origin);
            tokio::time::sleep(Duration::from_millis(latency)).await;
            (Reply::Status(ScopeStatus::ScopeExists), sent_at)
        });
    }
    let (submitted, action) =
        Harness::new().step(Event::Submitted { calls: latencies.len(), now: reading(&origin) });
    assert_eq!(action, Action::Await);

    let (harness, report) = runtime.block_on(async {
        let mut harness = submitted;
        loop {
            let event = match calls.next().await {
                Some((reply, sent_at)) => {
                    Event::Completed(Completion { reply, sent_at, done_at: reading(&origin) })
                }
                None => Event::Drained { now: reading(&origin) },
            };
            let (next, action) = harness.step(event);
            harness = next;
            match action {
                Action::Log(_) => {}
                Action::Report(report) => break (harness, report),
                other => panic!("the harness asked for {:?}", other),
            }
        }
    });

    assert_eq!(harness.phase(), Phase::Finished);
    assert_eq!(report.calls, 1000);
    assert_eq!(harness.results().len(), 1000);
    let total = Duration::from_nanos(report.total_nanos);
    assert!(total >= Duration::from_millis(longest));
    assert!(total < Duration::from_millis(longest * 20));
    assert!(total < Duration::from_millis(sum / 10));
    for result in harness.results() {
        assert!(result.elapsed <= report.total_nanos);
    }
}
