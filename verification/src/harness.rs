//! The decisions of one run of the load generator, as a state machine.
//!
//! The caller does the outside work: it sets up the connection, submits
//! the calls, waits for whichever completes first and reads the clock. It
//! hands each thing that happened to `Harness::step` as an `Event` and
//! carries out the `Action` it gets back.

use vstd::prelude::*;
use crate::endpoint::ConnectError;
use crate::outcome::{outcome_of, CallOutcome, Reply};
use crate::report::{elapsed, elapsed_between, AggregateReport};

verus! {

/// One call as it completed: what came back, and the clock readings taken
/// just before it was sent and just after its reply was at hand.
#[derive(Clone, Copy, Debug, PartialEq, Eq, Structural)]
pub struct Completion {
    pub reply: Reply,
    pub sent_at: u64,
    pub done_at: u64,
}

/// The classified outcome of one call and the time the call took.
#[derive(Clone, Copy, Debug, PartialEq, Eq, Structural)]
pub struct CallResult {
    pub outcome: CallOutcome,
    pub elapsed: u64,
}

/// The result that a completion stands for.
pub open spec fn result_of(completion: Completion) -> CallResult {
    CallResult {
        outcome: outcome_of(completion.reply),
        elapsed: elapsed_between(completion.sent_at, completion.done_at),
    }
}

impl Completion {
    /// Classifies the reply and measures the call.
    pub fn result(&self) -> (result: CallResult)
        ensures
            result == result_of(*self),
    {
        CallResult {
            outcome: CallOutcome::classify(self.reply),
            elapsed: elapsed(self.sent_at, self.done_at),
        }
    }
}

/// Where a run stands.
#[derive(Clone, Copy, Debug, PartialEq, Eq, Structural)]
pub enum Phase {
    /// No connection yet, no call submitted.
    Connecting,
    /// All calls are submitted; completions are being drained.
    Draining,
    /// Every call has resolved and the report is out.
    Finished,
    /// No connection could be set up; nothing was called.
    Aborted,
}

/// Something that happened outside.
#[derive(Clone, Copy, Debug, PartialEq, Eq, Structural)]
pub enum Event {
    /// The connection could not be set up.
    ConnectFailed(ConnectError),
    /// The connection stands and `calls` calls have been submitted; `now`
    /// is the clock reading taken right after the last submission.
    Submitted { calls: usize, now: u64 },
    /// One call has completed, whichever was ready first.
    Completed(Completion),
    /// No call is outstanding any more; `now` is the clock reading taken
    /// on finding that out.
    Drained { now: u64 },
}

/// What the caller is to do next.
#[derive(Clone, Copy, Debug, PartialEq, Eq, Structural)]
pub enum Action {
    /// Give up with a diagnostic: the run is over.
    Abort(ConnectError),
    /// Wait for the next completion.
    Await,
    /// Log this result, then wait for the next completion.
    Log(CallResult),
    /// Log the report: the run is over.
    Report(AggregateReport),
    /// The event does not fit the phase; nothing has changed.
    Reject,
}

/// What a `Harness` stands for.
pub struct HarnessView {
    pub phase: Phase,
    /// The number of calls submitted.
    pub submitted: nat,
    /// The clock reading at which the batch started.
    pub started_at: u64,
    /// The results so far, in order of arrival.
    pub results: Seq<CallResult>,
}

impl HarnessView {
    /// The state before anything has happened.
    pub open spec fn initial() -> HarnessView {
        HarnessView { phase: Phase::Connecting, submitted: 0, started_at: 0, results: Seq::empty() }
    }

    /// What holds in every state of a run: there are never more results
    /// than calls, none before the calls are submitted or after an abort,
    /// and one for each call when the run has finished.
    pub open spec fn inv(self) -> bool {
        &&& self.results.len() <= self.submitted <= usize::MAX
        &&& (self.phase is Connecting || self.phase is Aborted) ==> self.submitted == 0
        &&& self.phase is Finished ==> self.results.len() == self.submitted
    }

    /// The state after an event, and the action it calls for.
    pub open spec fn next(self, event: Event) -> (HarnessView, Action) {
        match (self.phase, event) {
            (Phase::Connecting, Event::ConnectFailed(error)) => (
                HarnessView { phase: Phase::Aborted, ..self },
                Action::Abort(error),
            ),
            (Phase::Connecting, Event::Submitted { calls, now }) => (
                HarnessView {
                    phase: Phase::Draining,
                    submitted: calls as nat,
                    started_at: now,
                    results: Seq::empty(),
                },
                Action::Await,
            ),
            (Phase::Draining, Event::Completed(completion)) => if self.results.len()
                < self.submitted {
                (
                    HarnessView { results: self.results.push(result_of(completion)), ..self },
                    Action::Log(result_of(completion)),
                )
            } else {
                (self, Action::Reject)
            },
            (Phase::Draining, Event::Drained { now }) => if self.results.len() == self.submitted {
                (
                    HarnessView { phase: Phase::Finished, ..self },
                    Action::Report(
                        AggregateReport {
                            calls: self.submitted as usize,
                            total_nanos: elapsed_between(self.started_at, now),
                        },
                    ),
                )
            } else {
                (self, Action::Reject)
            },
            _ => (self, Action::Reject),
        }
    }

    /// The state after a sequence of events, first to last.
    pub open spec fn after(self, events: Seq<Event>) -> HarnessView
        decreases events.len(),
    {
        if events.len() == 0 {
            self
        } else {
            self.after(events.drop_last()).next(events.last()).0
        }
    }
}

/// A step keeps the invariant of a run.
pub proof fn lemma_next_keeps_inv(state: HarnessView, event: Event)
    requires
        state.inv(),
    ensures
        state.next(event).0.inv(),
{
}

/// The invariant of a run holds in every state that events can lead to.
pub proof fn lemma_run_keeps_inv(events: Seq<Event>)
    ensures
        HarnessView::initial().after(events).inv(),
    decreases events.len(),
{
    if events.len() > 0 {
        lemma_run_keeps_inv(events.drop_last());
        lemma_next_keeps_inv(HarnessView::initial().after(events.drop_last()), events.last());
    }
}

/// No result is lost and none is made up: a step that logs a result has
/// taken a completion and appended the result of that completion, once;
/// every other step leaves the results as they were. A report is issued
/// only when there is one result for each submitted call.
pub proof fn lemma_step_accounts_for_results(state: HarnessView, event: Event)
    requires
        state.inv(),
    ensures
        ({
            let next = state.next(event);
            match next.1 {
                Action::Log(result) => {
                    &&& event matches Event::Completed(completion)
                    &&& result == result_of(completion)
                    &&& next.0.results == state.results.push(result)
                },
                Action::Report(report) => {
                    &&& next.0.results == state.results
                    &&& next.0.phase is Finished
                    &&& report.calls == state.results.len()
                    &&& report.calls == state.submitted
                },
                _ => next.0.results == state.results,
            }
        }),
{
}

/// When the connection cannot be set up, the run is over before any call:
/// the harness asks for the abort with that very error, and whatever is
/// handed to it afterwards it rejects, so that no result ever exists.
pub proof fn lemma_connect_failure_is_final(error: ConnectError, events: Seq<Event>)
    ensures
        ({
            let aborted = HarnessView::initial().next(Event::ConnectFailed(error));
            &&& aborted.1 == Action::Abort(error)
            &&& aborted.0.phase is Aborted
            &&& aborted.0.after(events) == aborted.0
            &&& aborted.0.after(events).results.len() == 0
            &&& events.len() > 0 ==> aborted.0.after(events.drop_last()).next(events.last()).1
                == Action::Reject
        }),
    decreases events.len(),
{
    if events.len() > 0 {
        lemma_connect_failure_is_final(error, events.drop_last());
    }
}

/// The state of one run.
#[derive(Debug)]
pub struct Harness {
    phase: Phase,
    submitted: usize,
    started_at: u64,
    results: Vec<CallResult>,
}

impl View for Harness {
    type V = HarnessView;

    closed spec fn view(&self) -> HarnessView {
        HarnessView {
            phase: self.phase,
            submitted: self.submitted as nat,
            started_at: self.started_at,
            results: self.results@,
        }
    }
}

impl Harness {
    #[verifier::type_invariant]
    spec fn well_formed(self) -> bool {
        self@.inv()
    }

    /// A run that is yet to connect.
    pub fn new() -> (harness: Harness)
        ensures
            harness@ == HarnessView::initial(),
    {
        Harness { phase: Phase::Connecting, submitted: 0, started_at: 0, results: Vec::new() }
    }

    /// Takes one event; gives the state after it and what to do next.
    pub fn step(self, event: Event) -> (next: (Harness, Action))
        ensures
            (next.0@, next.1) == self@.next(event),
            self@.inv(),
            next.0@.inv(),
    {
        proof {
            use_type_invariant(&self);
        }
        let Harness { phase, submitted, started_at, mut results } = self;
        match (phase, event) {
            (Phase::Connecting, Event::ConnectFailed(error)) => (
                Harness { phase: Phase::Aborted, submitted, started_at, results },
                Action::Abort(error),
            ),
            (Phase::Connecting, Event::Submitted { calls, now }) => (
                Harness {
                    phase: Phase::Draining,
                    submitted: calls,
                    started_at: now,
                    results: Vec::new(),
                },
                Action::Await,
            ),
            (Phase::Draining, Event::Completed(completion)) => {
                if results.len() < submitted {
                    let result = completion.result();
                    results.push(result);
                    (Harness { phase, submitted, started_at, results }, Action::Log(result))
                } else {
                    (Harness { phase, submitted, started_at, results }, Action::Reject)
                }
            },
            (Phase::Draining, Event::Drained { now }) => {
                if results.len() == submitted {
                    let report = AggregateReport {
                        calls: submitted,
                        total_nanos: elapsed(started_at, now),
                    };
                    (
                        Harness { phase: Phase::Finished, submitted, started_at, results },
                        Action::Report(report),
                    )
                } else {
                    (Harness { phase, submitted, started_at, results }, Action::Reject)
                }
            },
            _ => (Harness { phase, submitted, started_at, results }, Action::Reject),
        }
    }

    pub fn phase(&self) -> (phase: Phase)
        ensures
            phase == self@.phase,
    {
        self.phase
    }

    /// The number of calls that are submitted and have not completed.
    pub fn outstanding(&self) -> (count: usize)
        ensures
            self@.inv(),
            count == self@.submitted - self@.results.len(),
    {
        proof {
            use_type_invariant(self);
        }
        self.submitted - self.results.len()
    }

    /// The results so far, in order of arrival.
    pub fn results(&self) -> (results: &Vec<CallResult>)
        ensures
            results@ == self@.results,
    {
        &self.results
    }

    /// Ends the run and hands out its results.
    pub fn into_results(self) -> (results: Vec<CallResult>)
        ensures
            results@ == self@.results,
    {
        self.results
    }
}

} // verus!
