//! A whole batch at once: the run of the harness over the completions of a
//! batch that has already been recorded, in their order of arrival.

use vstd::prelude::*;
use crate::harness::{result_of, Action, CallResult, Completion, Event, Harness, HarnessView, Phase};
use crate::report::{elapsed_between, lemma_call_within_total, AggregateReport};

verus! {

/// The results of a batch, in order of arrival, and its report.
#[derive(Debug)]
pub struct BatchRun {
    pub results: Vec<CallResult>,
    pub report: AggregateReport,
}

/// The results that a sequence of completions stands for, one for one.
pub open spec fn results_of(completions: Seq<Completion>) -> Seq<CallResult> {
    completions.map_values(|c: Completion| result_of(c))
}

/// The events of a batch up to its `k`-th completion: the submission of as
/// many calls as there are requests, then one event per completion.
pub open spec fn draining_events(
    calls: usize,
    completions: Seq<Completion>,
    started_at: u64,
    k: int,
) -> Seq<Event> {
    seq![Event::Submitted { calls, now: started_at }] + completions.take(k).map_values(
        |c: Completion| Event::Completed(c),
    )
}

/// The events of a whole batch: submission, every completion, exhaustion.
pub open spec fn batch_events(
    calls: usize,
    completions: Seq<Completion>,
    started_at: u64,
    finished_at: u64,
) -> Seq<Event> {
    draining_events(calls, completions, started_at, completions.len() as int).push(
        Event::Drained { now: finished_at },
    )
}

/// While a batch drains, the harness holds one result for each completion
/// that it has been handed, in the order in which they came.
pub proof fn lemma_draining(calls: usize, completions: Seq<Completion>, started_at: u64, k: int)
    requires
        0 <= k <= completions.len(),
        k <= calls,
    ensures
        HarnessView::initial().after(draining_events(calls, completions, started_at, k))
            == (HarnessView {
            phase: Phase::Draining,
            submitted: calls as nat,
            started_at,
            results: results_of(completions.take(k)),
        }),
    decreases k,
{
    let events = draining_events(calls, completions, started_at, k);
    let start = HarnessView::initial();
    if k == 0 {
        assert(events.drop_last() =~= Seq::<Event>::empty());
        assert(start.after(events.drop_last()) == start);
        assert(results_of(completions.take(0)) =~= Seq::<CallResult>::empty());
    } else {
        lemma_draining(calls, completions, started_at, k - 1);
        assert(events.drop_last() =~= draining_events(calls, completions, started_at, k - 1));
        assert(results_of(completions.take(k - 1)).push(result_of(completions[k - 1]))
            =~= results_of(completions.take(k)));
    }
}

/// A batch of N calls, run to its end, leaves exactly N results: the
/// result of each completion, once, in the order of arrival. The report
/// counts N calls and spans the time from submission to exhaustion.
pub proof fn lemma_batch_yields_one_result_per_call(
    completions: Seq<Completion>,
    started_at: u64,
    finished_at: u64,
)
    requires
        completions.len() <= usize::MAX,
    ensures
        ({
            let calls = completions.len() as usize;
            let drained = HarnessView::initial().after(
                draining_events(calls, completions, started_at, calls as int),
            );
            let last = drained.next(Event::Drained { now: finished_at });
            &&& HarnessView::initial().after(
                batch_events(calls, completions, started_at, finished_at),
            ) == last.0
            &&& last.0.phase is Finished
            &&& last.0.results == results_of(completions)
            &&& last.0.results.len() == completions.len()
            &&& last.1 == Action::Report(
                AggregateReport {
                    calls,
                    total_nanos: elapsed_between(started_at, finished_at),
                },
            )
        }),
{
    let calls = completions.len() as usize;
    lemma_draining(calls, completions, started_at, calls as int);
    let events = batch_events(calls, completions, started_at, finished_at);
    assert(events.drop_last() =~= draining_events(calls, completions, started_at, calls as int));
}

/// Runs a recorded batch: `requests` are the calls that were submitted at
/// `started_at`, `completions` what came back for them, in order of
/// arrival, and `finished_at` the reading taken when none was outstanding.
///
/// There is a run exactly when there is one completion per request. It
/// holds one result per request, and no call that was sent and resolved
/// within the batch took longer than the batch did.
pub fn run_batch(
    requests: &Vec<String>,
    completions: &Vec<Completion>,
    started_at: u64,
    finished_at: u64,
) -> (run: Option<BatchRun>)
    ensures
        run is Some <==> completions@.len() == requests@.len(),
        run matches Some(batch) ==> {
            &&& batch.results@ == results_of(completions@)
            &&& batch.results@.len() == requests@.len()
            &&& batch.report == (AggregateReport {
                calls: requests.len(),
                total_nanos: elapsed_between(started_at, finished_at),
            })
            &&& HarnessView::initial().after(
                batch_events(requests.len(), completions@, started_at, finished_at),
            ).results == batch.results@
            &&& forall|i: int|
                #![trigger batch.results@[i]]
                0 <= i < completions@.len() && started_at <= completions@[i].sent_at
                    && completions@[i].done_at <= finished_at ==> batch.results@[i].elapsed
                    <= batch.report.total_nanos
        },
{
    let calls = requests.len();
    if completions.len() != calls {
        return None;
    }
    let (mut harness, _) = Harness::new().step(Event::Submitted { calls, now: started_at });
    assert(results_of(completions@.take(0)) =~= Seq::<CallResult>::empty());
    let mut i: usize = 0;
    while i < calls
        invariant
            calls == completions@.len(),
            i <= calls,
            harness@ == (HarnessView {
                phase: Phase::Draining,
                submitted: calls as nat,
                started_at,
                results: results_of(completions@.take(i as int)),
            }),
        decreases calls - i,
    {
        let (next, _) = harness.step(Event::Completed(completions[i]));
        assert(results_of(completions@.take(i as int)).push(result_of(completions@[i as int]))
            =~= results_of(completions@.take(i + 1)));
        harness = next;
        i = i + 1;
    }
    let (harness, action) = harness.step(Event::Drained { now: finished_at });
    proof {
        lemma_batch_yields_one_result_per_call(completions@, started_at, finished_at);
        assert forall|k: int|
            0 <= k < completions@.len() && started_at <= completions@[k].sent_at
                && completions@[k].done_at <= finished_at implies (#[trigger] results_of(
            completions@,
        )[k]).elapsed <= elapsed_between(started_at, finished_at) by {
            lemma_call_within_total(
                started_at,
                completions@[k].sent_at,
                completions@[k].done_at,
                finished_at,
            );
        }
    }
    match action {
        Action::Report(report) => Some(BatchRun { results: harness.into_results(), report }),
        _ => None,
    }
}

} // verus!
