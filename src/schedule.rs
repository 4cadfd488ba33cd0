//! Ramp-up pacing: workers start one after another, evenly spread over the
//! ramp-up window.
use vstd::prelude::*;

verus! {

/// Nanoseconds in a second.
pub const NANOS_PER_SECOND: u128 = 1_000_000_000;

/// Spacing between two worker starts: the window divided by the number of
/// workers, rounded down to the nanosecond; 0 when there is no worker.
pub open spec fn interval_nanos(ramp_seconds: nat, tasks: nat) -> nat {
    if tasks == 0 {
        0
    } else {
        ((ramp_seconds * NANOS_PER_SECOND) / (tasks as int)) as nat
    }
}

/// The pause after starting worker `i` of `tasks`: the interval, except after
/// the last worker.
pub open spec fn pause_after(i: nat, tasks: nat, interval: nat) -> nat {
    if i + 1 < tasks {
        interval
    } else {
        0
    }
}

/// Exec form of `interval_nanos`.
pub fn ramp_interval_nanos(ramp_seconds: u64, tasks: usize) -> (r: u128)
    ensures
        r == interval_nanos(ramp_seconds as nat, tasks as nat),
{
    if tasks == 0 {
        0
    } else {
        let window = ramp_seconds as u128;
        assert(window * NANOS_PER_SECOND <= u128::MAX) by (nonlinear_arith)
            requires
                window <= u64::MAX,
        ;
        (window * NANOS_PER_SECOND) / (tasks as u128)
    }
}

/// The pauses that follow each of the `tasks` worker starts, in order.
pub fn ramp_plan(ramp_seconds: u64, tasks: usize) -> (r: Vec<u128>)
    ensures
        r@.len() == tasks,
        forall|i: int|
            0 <= i < tasks ==> #[trigger] r@[i] == pause_after(
                i as nat,
                tasks as nat,
                interval_nanos(ramp_seconds as nat, tasks as nat),
            ),
{
    let interval = ramp_interval_nanos(ramp_seconds, tasks);
    let mut plan: Vec<u128> = Vec::new();
    let mut i: usize = 0;
    while i < tasks
        invariant
            i <= tasks,
            interval == interval_nanos(ramp_seconds as nat, tasks as nat),
            plan@.len() == i,
            forall|j: int|
                0 <= j < i ==> #[trigger] plan@[j] == pause_after(
                    j as nat,
                    tasks as nat,
                    interval as nat,
                ),
        decreases tasks - i,
    {
        let pause = if i < tasks - 1 {
            interval
        } else {
            0
        };
        plan.push(pause);
        i = i + 1;
    }
    plan
}

/// The spacing only staggers starts: the pauses before worker `k` starts add
/// up to `k` intervals.
pub open spec fn start_offset(k: nat, tasks: nat, interval: nat) -> nat
    decreases k,
{
    if k == 0 {
        0
    } else {
        start_offset((k - 1) as nat, tasks, interval) + pause_after((k - 1) as nat, tasks, interval)
    }
}

/// Worker `k` of `tasks` starts `k` intervals after the first.
pub proof fn lemma_even_spacing(k: nat, tasks: nat, interval: nat)
    requires
        k < tasks,
    ensures
        start_offset(k, tasks, interval) == k * interval,
    decreases k,
{
    if k > 0 {
        lemma_even_spacing((k - 1) as nat, tasks, interval);
        assert(pause_after((k - 1) as nat, tasks, interval) == interval);
        assert(start_offset(k, tasks, interval) == start_offset((k - 1) as nat, tasks, interval)
            + interval);
        assert(((k - 1) as nat) * interval + interval == k * interval) by (nonlinear_arith)
            requires
                k > 0,
        ;
    } else {
        assert(k * interval == 0) by (nonlinear_arith)
            requires
                k == 0,
        ;
    }
}

} // verus!
