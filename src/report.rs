//! Figures derived from the final statistics of a run.
use crate::stats::{seq_min, Stats, NO_SAMPLE_MIN};
use vstd::prelude::*;

verus! {

/// Nanoseconds in a second, times 100: throughput is kept in hundredths of a
/// request per second.
pub const CENTI_NANOS_PER_SECOND: u128 = 100_000_000_000;

/// Successes per second of `elapsed_nanos`, in hundredths, rounded down; 0 when
/// no time elapsed.
pub open spec fn throughput_centi(success: nat, elapsed_nanos: nat) -> nat {
    if elapsed_nanos == 0 {
        0
    } else {
        ((success * CENTI_NANOS_PER_SECOND) / (elapsed_nanos as int)) as nat
    }
}

/// Mean response time, rounded down; 0 when there is no success.
pub open spec fn average(total: nat, success: nat) -> nat {
    if success == 0 {
        0
    } else {
        total / success
    }
}

/// The minimum as reported: the sentinel never shows, 0 stands in its place.
pub open spec fn reported_min(min: u128) -> u128 {
    if min == NO_SAMPLE_MIN {
        0
    } else {
        min
    }
}

/// Final figures of a run.
#[derive(Clone, Copy, Debug, PartialEq, Eq, Structural)]
pub struct Report {
    pub tasks: usize,
    pub loop_count: usize,
    pub elapsed_nanos: u128,
    pub success: usize,
    pub failures: usize,
    pub retries: usize,
    pub resource_exhausted: usize,
    pub unavailable: usize,
    pub errors: usize,
    /// Successes per second, in hundredths.
    pub throughput_centi: u128,
    pub avg_response_time: u128,
    pub max_response_time: u128,
    pub min_response_time: u128,
}

impl Report {
    /// The figures for a run of `tasks` workers of `loop_count` iterations that
    /// took `elapsed_nanos` and ended with the statistics `stats`.
    pub fn from_stats(tasks: usize, loop_count: usize, stats: &Stats, elapsed_nanos: u128) -> (r:
        Report)
        ensures
            r.tasks == tasks,
            r.loop_count == loop_count,
            r.elapsed_nanos == elapsed_nanos,
            r.success == stats.total_success,
            r.failures == stats.total_failures,
            r.retries == stats.total_retries,
            r.resource_exhausted == stats.total_resource_exhausted,
            r.unavailable == stats.total_unavailable,
            r.errors == stats.total_errors,
            r.throughput_centi == throughput_centi(
                stats.total_success as nat,
                elapsed_nanos as nat,
            ),
            r.avg_response_time == average(
                stats.total_response_time as nat,
                stats.total_success as nat,
            ),
            r.max_response_time == stats.max_response_time,
            r.min_response_time == reported_min(stats.min_response_time),
    {
        let throughput: u128 = if elapsed_nanos == 0 {
            0
        } else {
            let success = stats.total_success as u128;
            assert(success * CENTI_NANOS_PER_SECOND <= u128::MAX) by (nonlinear_arith)
                requires
                    success <= usize::MAX,
            ;
            (success * CENTI_NANOS_PER_SECOND) / elapsed_nanos
        };
        let avg: u128 = if stats.total_success == 0 {
            0
        } else {
            stats.total_response_time / (stats.total_success as u128)
        };
        let min = if stats.min_response_time == NO_SAMPLE_MIN {
            0
        } else {
            stats.min_response_time
        };
        Report {
            tasks,
            loop_count,
            elapsed_nanos,
            success: stats.total_success,
            failures: stats.total_failures,
            retries: stats.total_retries,
            resource_exhausted: stats.total_resource_exhausted,
            unavailable: stats.total_unavailable,
            errors: stats.total_errors,
            throughput_centi: throughput,
            avg_response_time: avg,
            max_response_time: stats.max_response_time,
            min_response_time: min,
        }
    }
}

/// The smallest of a non-empty sequence of samples is one of them.
pub proof fn lemma_seq_min_is_sample(s: Seq<u128>)
    requires
        s.len() > 0,
    ensures
        s.contains(seq_min(s)),
    decreases s.len(),
{
    let m = seq_min(s.drop_last());
    let k = s.len() - 1;
    assert(s[k] == s.last());
    if s.last() < m {
        assert(s[k] == seq_min(s));
    } else if s.len() > 1 {
        lemma_seq_min_is_sample(s.drop_last());
        let i = choose|i: int| 0 <= i < s.drop_last().len() && s.drop_last()[i] == m;
        assert(s[i] == seq_min(s));
    } else {
        assert(s[k] == seq_min(s));
    }
}

/// The reported minimum is never the sentinel. It is 0 when nothing succeeded;
/// when every recorded response time lies strictly between 0 and the sentinel,
/// it is 0 exactly when nothing succeeded.
pub proof fn lemma_reported_min(stats: Stats)
    requires
        stats.wf(),
    ensures
        reported_min(stats.min_response_time) != NO_SAMPLE_MIN,
        stats.total_success == 0 ==> reported_min(stats.min_response_time) == 0,
        (forall|i: int|
            0 <= i < stats.samples@.len() ==> 0 < #[trigger] stats.samples@[i] < NO_SAMPLE_MIN)
            ==> (reported_min(stats.min_response_time) == 0 <==> stats.total_success == 0),
{
    if stats.total_success > 0 {
        lemma_seq_min_is_sample(stats.samples@);
    }
}

/// Throughput is 0 when no time elapsed or nothing succeeded.
pub proof fn lemma_throughput_zero(success: nat, elapsed_nanos: nat)
    requires
        elapsed_nanos == 0 || success == 0,
    ensures
        throughput_centi(success, elapsed_nanos) == 0,
{
    if elapsed_nanos > 0 {
        assert(0 * CENTI_NANOS_PER_SECOND == 0);
        assert(0nat / elapsed_nanos == 0) by (nonlinear_arith)
            requires
                elapsed_nanos > 0,
        ;
    }
}

} // verus!
