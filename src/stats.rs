//! Outcome counters and latency extremes shared by all workers of a run.
use vstd::prelude::*;

verus! {

/// The value that the minimum response time holds before any success.
pub const NO_SAMPLE_MIN: u128 = 0xffff_ffff_ffff_ffff_ffff_ffff_ffff_ffff;

/// Smallest sample of `s`, or the sentinel when `s` is empty.
pub open spec fn seq_min(s: Seq<u128>) -> u128
    decreases s.len(),
{
    if s.len() == 0 {
        NO_SAMPLE_MIN
    } else {
        let m = seq_min(s.drop_last());
        if s.last() < m {
            s.last()
        } else {
            m
        }
    }
}

/// Largest sample of `s`, or 0 when `s` is empty.
pub open spec fn seq_max(s: Seq<u128>) -> u128
    decreases s.len(),
{
    if s.len() == 0 {
        0
    } else {
        let m = seq_max(s.drop_last());
        if s.last() > m {
            s.last()
        } else {
            m
        }
    }
}

/// Sum of the samples of `s`.
pub open spec fn seq_sum(s: Seq<u128>) -> int
    decreases s.len(),
{
    if s.len() == 0 {
        0
    } else {
        seq_sum(s.drop_last()) + s.last()
    }
}

/// Accumulated outcomes of a run.
///
/// `samples` is the sequence of response times of the successes recorded so far;
/// the success count, the summed time and the two extremes are derived from it.
pub struct Stats {
    pub total_success: usize,
    pub total_failures: usize,
    pub total_retries: usize,
    pub total_resource_exhausted: usize,
    pub total_unavailable: usize,
    pub total_errors: usize,
    pub total_response_time: u128,
    pub max_response_time: u128,
    pub min_response_time: u128,
    pub samples: Ghost<Seq<u128>>,
}

impl Stats {
    /// The accumulated figures agree with the recorded samples.
    pub open spec fn wf(&self) -> bool {
        &&& self.total_success == self.samples@.len()
        &&& self.total_response_time == seq_sum(self.samples@)
        &&& self.max_response_time == seq_max(self.samples@)
        &&& self.min_response_time == seq_min(self.samples@)
    }

    /// Every counter has room for one more event, the retry count for `retries`
    /// more, and the summed time for `response_time` more.
    pub open spec fn has_room(&self, response_time: u128, retries: usize) -> bool {
        &&& self.total_success < usize::MAX
        &&& self.total_failures < usize::MAX
        &&& self.total_retries + retries < usize::MAX
        &&& self.total_resource_exhausted < usize::MAX
        &&& self.total_unavailable < usize::MAX
        &&& self.total_errors < usize::MAX
        &&& self.total_response_time + response_time <= u128::MAX
    }

    /// Empty statistics: all counters 0, the minimum at its sentinel.
    pub fn new() -> (r: Stats)
        ensures
            r.wf(),
            r.samples@ == Seq::<u128>::empty(),
            r.total_success == 0,
            r.total_failures == 0,
            r.total_retries == 0,
            r.total_resource_exhausted == 0,
            r.total_unavailable == 0,
            r.total_errors == 0,
            r.total_response_time == 0,
            r.max_response_time == 0,
            r.min_response_time == NO_SAMPLE_MIN,
    {
        Stats {
            total_success: 0,
            total_failures: 0,
            total_retries: 0,
            total_resource_exhausted: 0,
            total_unavailable: 0,
            total_errors: 0,
            total_response_time: 0,
            max_response_time: 0,
            min_response_time: NO_SAMPLE_MIN,
            samples: Ghost(Seq::empty()),
        }
    }

    /// Exec check of `has_room`.
    pub fn can_absorb(&self, response_time: u128, retries: usize) -> (r: bool)
        ensures
            r == self.has_room(response_time, retries),
    {
        self.total_success < usize::MAX && self.total_failures < usize::MAX
            && retries < usize::MAX - self.total_retries && self.total_resource_exhausted
            < usize::MAX && self.total_unavailable < usize::MAX && self.total_errors
            < usize::MAX && response_time <= u128::MAX - self.total_response_time
    }

    /// Records one success that took `response_time` after `retries` retries.
    pub fn update(&mut self, response_time: u128, retries: usize)
        requires
            old(self).wf(),
            old(self).total_success < usize::MAX,
            old(self).total_retries + retries <= usize::MAX,
            old(self).total_response_time + response_time <= u128::MAX,
        ensures
            final(self).wf(),
            final(self).samples@ == old(self).samples@.push(response_time),
            final(self).total_success == old(self).total_success + 1,
            final(self).total_retries == old(self).total_retries + retries,
            final(self).total_response_time == old(self).total_response_time + response_time,
            final(self).max_response_time == (if response_time > old(self).max_response_time {
                response_time
            } else {
                old(self).max_response_time
            }),
            final(self).min_response_time == (if response_time < old(self).min_response_time {
                response_time
            } else {
                old(self).min_response_time
            }),
            final(self).total_failures == old(self).total_failures,
            final(self).total_resource_exhausted == old(self).total_resource_exhausted,
            final(self).total_unavailable == old(self).total_unavailable,
            final(self).total_errors == old(self).total_errors,
    {
        self.total_success = self.total_success + 1;
        self.total_retries = self.total_retries + retries;
        self.total_response_time = self.total_response_time + response_time;
        if response_time > self.max_response_time {
            self.max_response_time = response_time;
        }
        if response_time < self.min_response_time {
            self.min_response_time = response_time;
        }
        let ghost prev = self.samples@;
        self.samples = Ghost(prev.push(response_time));
        assert(self.samples@.drop_last() == prev);
    }

    /// Records one permanent failure.
    pub fn record_failure(&mut self)
        requires
            old(self).total_failures < usize::MAX,
        ensures
            *final(self) == (Stats { total_failures: (old(self).total_failures + 1) as usize, ..*old(self) }),
    {
        self.total_failures = self.total_failures + 1;
    }

    /// Records one resource-exhausted reply.
    pub fn record_resource_exhausted(&mut self)
        requires
            old(self).total_resource_exhausted < usize::MAX,
        ensures
            *final(self) == (Stats {
                total_resource_exhausted: (old(self).total_resource_exhausted + 1) as usize,
                ..*old(self)
            }),
    {
        self.total_resource_exhausted = self.total_resource_exhausted + 1;
    }

    /// Records one unavailable reply.
    pub fn record_unavailable(&mut self)
        requires
            old(self).total_unavailable < usize::MAX,
        ensures
            *final(self) == (Stats { total_unavailable: (old(self).total_unavailable + 1) as usize, ..*old(self) }),
    {
        self.total_unavailable = self.total_unavailable + 1;
    }

    /// Records one reply of a non-retryable kind.
    pub fn record_error(&mut self)
        requires
            old(self).total_errors < usize::MAX,
        ensures
            *final(self) == (Stats { total_errors: (old(self).total_errors + 1) as usize, ..*old(self) }),
    {
        self.total_errors = self.total_errors + 1;
    }

    /// Records one retry that is about to be performed.
    pub fn record_retry(&mut self)
        requires
            old(self).total_retries < usize::MAX,
        ensures
            *final(self) == (Stats { total_retries: (old(self).total_retries + 1) as usize, ..*old(self) }),
    {
        self.total_retries = self.total_retries + 1;
    }
}

} // verus!
