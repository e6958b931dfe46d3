//! Clock arithmetic and the aggregate report of a batch.
//!
//! Clock readings are nanoseconds on a monotonic clock, counted from an
//! origin of the caller's choosing.

use vstd::prelude::*;

verus! {

pub const NANOS_PER_SECOND: u64 = 1_000_000_000;

/// The time from one clock reading to a later one. A reading that lies
/// before `from` gives zero: elapsed time is never negative.
pub open spec fn elapsed_between(from: u64, to: u64) -> u64 {
    if to >= from {
        (to - from) as u64
    } else {
        0
    }
}

/// Computes `elapsed_between`.
pub fn elapsed(from: u64, to: u64) -> (nanos: u64)
    ensures
        nanos == elapsed_between(from, to),
{
    if to >= from {
        to - from
    } else {
        0
    }
}

/// Whole requests per second for `calls` requests in `total_nanos`
/// nanoseconds, rounded down. Undefined when no time has elapsed.
pub open spec fn throughput_of(calls: nat, total_nanos: nat) -> Option<nat> {
    if total_nanos == 0 {
        None
    } else {
        Some(calls * (NANOS_PER_SECOND as nat) / total_nanos)
    }
}

/// What a batch amounted to once every call had resolved.
#[derive(Clone, Copy, Debug, PartialEq, Eq, Structural)]
pub struct AggregateReport {
    /// The number of calls of the batch.
    pub calls: usize,
    /// Wall-clock time from the submission of the batch to its exhaustion.
    pub total_nanos: u64,
}

impl AggregateReport {
    /// The throughput of the batch, derived from the two fields and from
    /// nothing else: `None` when no time has elapsed, else the number of
    /// calls divided by the elapsed seconds, rounded down.
    pub fn requests_per_second(&self) -> (rate: Option<u128>)
        ensures
            rate is Some <==> self.total_nanos != 0,
            match rate {
                Some(r) => Some(r as nat) == throughput_of(
                    self.calls as nat,
                    self.total_nanos as nat,
                ),
                None => throughput_of(self.calls as nat, self.total_nanos as nat) is None,
            },
    {
        if self.total_nanos == 0 {
            None
        } else {
            assert(self.calls <= u64::MAX && NANOS_PER_SECOND == 1_000_000_000);
            let scaled: u128 = (self.calls as u128) * (NANOS_PER_SECOND as u128);
            Some(scaled / (self.total_nanos as u128))
        }
    }
}

/// A call that was sent no earlier than the batch started, and that
/// resolved no later than the batch ended, took no longer than the batch.
pub proof fn lemma_call_within_total(started_at: u64, sent_at: u64, done_at: u64, finished_at: u64)
    requires
        started_at <= sent_at,
        done_at <= finished_at,
    ensures
        0 <= elapsed_between(sent_at, done_at) <= elapsed_between(started_at, finished_at),
{
}

/// The rate is the number of calls per elapsed second, rounded down: the
/// largest whole number that, multiplied by the elapsed time, does not
/// exceed the calls of the batch times one second.
pub proof fn lemma_throughput_bounds(calls: nat, total_nanos: nat)
    requires
        total_nanos > 0,
    ensures
        throughput_of(calls, total_nanos) matches Some(rate) && rate * total_nanos <= calls * (
        NANOS_PER_SECOND as nat) < (rate + 1) * total_nanos,
{
    let scaled = (calls * (NANOS_PER_SECOND as nat)) as int;
    let d = total_nanos as int;
    vstd::arithmetic::div_mod::lemma_fundamental_div_mod(scaled, d);
    assert((scaled / d + 1) * d == (scaled / d) * d + d) by (nonlinear_arith);
}

} // verus!
