//! One worker's decisions: a fixed number of loop iterations, each an attempt
//! that is retried with exponential backoff on transient failures.
//!
//! The caller performs the I/O: it issues a call whenever the machine answers
//! `Action::Call`, sleeps and calls again on `Action::Retry`, and stops on
//! `Action::Finish`, handing each call's outcome back to `Worker::on_outcome`.
use crate::config::{backoff_in_range, lemma_doubled_delay, pow2, Config};
use crate::stats::Stats;
use vstd::prelude::*;

verus! {

/// How a failed call is classified.
#[derive(Clone, Copy, Debug, PartialEq, Eq, Structural)]
pub enum ErrorClass {
    /// Transient: the service ran out of a resource.
    ResourceExhausted,
    /// Transient: the service could not be reached.
    Unavailable,
    /// Any other failure; never retried.
    Other,
}

/// What one call of the operation came back with.
#[derive(Clone, Copy, Debug, PartialEq, Eq, Structural)]
pub enum Outcome {
    /// The call succeeded after the given time, in milliseconds.
    Succeeded(u128),
    /// The call failed.
    Failed(ErrorClass),
}

/// What the worker does next.
#[derive(Clone, Copy, Debug, PartialEq, Eq, Structural)]
pub enum Action {
    /// Issue the operation (first try of a loop iteration).
    Call,
    /// Sleep for the given number of milliseconds, then issue the operation again.
    Retry(u64),
    /// All loop iterations are done.
    Finish,
}

/// Whether a failure of class `c` may be retried.
pub open spec fn is_retryable(c: ErrorClass) -> bool {
    c is ResourceExhausted || c is Unavailable
}

/// Progress of one worker.
#[derive(Clone, Copy, Debug)]
pub struct Worker {
    pub loop_count: usize,
    pub max_retries: usize,
    pub initial_delay_ms: u64,
    /// Loop iterations finished so far.
    pub iteration: usize,
    /// Retries performed in the current iteration.
    pub retries: usize,
    /// Delay before the next retry of the current iteration.
    pub delay_ms: u64,
}

impl Worker {
    pub open spec fn wf(&self) -> bool {
        &&& self.iteration <= self.loop_count
        &&& self.retries <= self.max_retries
        &&& self.delay_ms == self.initial_delay_ms * pow2(self.retries as nat)
        &&& backoff_in_range(self.initial_delay_ms, self.max_retries)
    }

    /// Some loop iteration is still to be finished.
    pub open spec fn active(&self) -> bool {
        self.iteration < self.loop_count
    }

    /// The action that follows a finished iteration.
    pub open spec fn after_iteration_action(&self) -> Action {
        if self.iteration + 1 < self.loop_count {
            Action::Call
        } else {
            Action::Finish
        }
    }

    /// The state that follows a finished iteration.
    pub open spec fn after_iteration(&self) -> Worker {
        Worker {
            iteration: (self.iteration + 1) as usize,
            retries: 0,
            delay_ms: self.initial_delay_ms,
            ..*self
        }
    }

    /// A retryable failure of the current try uses up the allowed retries.
    pub open spec fn gives_up(&self) -> bool {
        self.retries + 1 > self.max_retries
    }

    /// The state after outcome `o`.
    pub open spec fn next(&self, o: Outcome) -> Worker {
        match o {
            Outcome::Failed(c) if is_retryable(c) && !self.gives_up() => Worker {
                retries: (self.retries + 1) as usize,
                delay_ms: (self.delay_ms * 2) as u64,
                ..*self
            },
            _ => self.after_iteration(),
        }
    }

    /// The action after outcome `o`.
    pub open spec fn next_action(&self, o: Outcome) -> Action {
        match o {
            Outcome::Failed(c) if is_retryable(c) && !self.gives_up() => Action::Retry(
                self.delay_ms,
            ),
            _ => self.after_iteration_action(),
        }
    }

    /// The statistics after outcome `o`, starting from `s`.
    pub open spec fn next_stats(&self, o: Outcome, s: Stats) -> Stats {
        match o {
            Outcome::Succeeded(t) => Stats {
                total_success: (s.total_success + 1) as usize,
                total_retries: (s.total_retries + self.retries) as usize,
                total_response_time: (s.total_response_time + t) as u128,
                max_response_time: if t > s.max_response_time {
                    t
                } else {
                    s.max_response_time
                },
                min_response_time: if t < s.min_response_time {
                    t
                } else {
                    s.min_response_time
                },
                samples: Ghost(s.samples@.push(t)),
                ..s
            },
            Outcome::Failed(ErrorClass::Other) => Stats {
                total_errors: (s.total_errors + 1) as usize,
                ..s
            },
            Outcome::Failed(c) => {
                let s1 = if c is ResourceExhausted {
                    Stats { total_resource_exhausted: (s.total_resource_exhausted + 1) as usize, ..s }
                } else {
                    Stats { total_unavailable: (s.total_unavailable + 1) as usize, ..s }
                };
                if self.gives_up() {
                    Stats { total_failures: (s1.total_failures + 1) as usize, ..s1 }
                } else {
                    Stats { total_retries: (s1.total_retries + 1) as usize, ..s1 }
                }
            },
        }
    }

    /// A worker that has finished nothing yet, with the retry policy of `config`.
    pub fn new(config: &Config) -> (r: Worker)
        requires
            backoff_in_range(config.retry_initial_delay_ms, config.max_retries),
        ensures
            r.wf(),
            r.loop_count == config.loop_count,
            r.max_retries == config.max_retries,
            r.initial_delay_ms == config.retry_initial_delay_ms,
            r.iteration == 0,
            r.retries == 0,
            r.delay_ms == config.retry_initial_delay_ms,
    {
        assert(pow2(0) == 1);
        Worker {
            loop_count: config.loop_count,
            max_retries: config.max_retries,
            initial_delay_ms: config.retry_initial_delay_ms,
            iteration: 0,
            retries: 0,
            delay_ms: config.retry_initial_delay_ms,
        }
    }

    /// The first action once the session is up: a call, unless there is no
    /// iteration to run.
    pub fn start(&self) -> (r: Action)
        ensures
            r == (if self.active() {
                Action::Call
            } else {
                Action::Finish
            }),
    {
        if self.iteration < self.loop_count {
            Action::Call
        } else {
            Action::Finish
        }
    }

    fn finish_iteration(&mut self) -> (r: Action)
        requires
            old(self).wf(),
            old(self).active(),
        ensures
            *final(self) == old(self).after_iteration(),
            final(self).wf(),
            r == old(self).after_iteration_action(),
    {
        proof {
            assert(pow2(0) == 1);
        }
        self.iteration = self.iteration + 1;
        self.retries = 0;
        self.delay_ms = self.initial_delay_ms;
        if self.iteration < self.loop_count {
            Action::Call
        } else {
            Action::Finish
        }
    }

    /// Takes the outcome of the last call, records it in `stats`, and decides
    /// what comes next.
    pub fn on_outcome(&mut self, o: Outcome, stats: &mut Stats) -> (r: Action)
        requires
            old(self).wf(),
            old(self).active(),
            old(stats).wf(),
            old(stats).has_room(
                match o {
                    Outcome::Succeeded(t) => t,
                    _ => 0,
                },
                old(self).retries,
            ),
        ensures
            final(self).wf(),
            *final(self) == old(self).next(o),
            r == old(self).next_action(o),
            *final(stats) == old(self).next_stats(o, *old(stats)),
            final(stats).wf(),
    {
        match o {
            Outcome::Succeeded(t) => {
                stats.update(t, self.retries);
                self.finish_iteration()
            },
            Outcome::Failed(c) => {
                match c {
                    ErrorClass::ResourceExhausted => stats.record_resource_exhausted(),
                    ErrorClass::Unavailable => stats.record_unavailable(),
                    ErrorClass::Other => {
                        stats.record_error();
                        return self.finish_iteration();
                    },
                }
                if self.retries >= self.max_retries {
                    stats.record_failure();
                    self.finish_iteration()
                } else {
                    stats.record_retry();
                    let d = self.delay_ms;
                    proof {
                        lemma_next_wf(*self, o);
                    }
                    self.delay_ms = d * 2;
                    self.retries = self.retries + 1;
                    Action::Retry(d)
                }
            },
        }
    }
}

/// Number of terminal outcomes (successes and permanent failures) in `s`.
pub open spec fn terminal_count(s: Stats) -> int {
    s.total_success + s.total_failures
}

/// Whether `os` holds a non-retryable failure.
pub open spec fn has_fatal(os: Seq<Outcome>) -> bool {
    exists|i: int| 0 <= i < os.len() && os[i] == Outcome::Failed(ErrorClass::Other)
}

/// Worker state and statistics after handing the outcomes `os` in turn to the
/// worker, as long as it is active.
pub open spec fn run(w: Worker, s: Stats, os: Seq<Outcome>) -> (Worker, Stats)
    decreases os.len(),
{
    if os.len() == 0 || !w.active() {
        (w, s)
    } else {
        run(w.next(os[0]), w.next_stats(os[0], s), os.drop_first())
    }
}

/// Every step keeps the worker well formed.
pub proof fn lemma_next_wf(w: Worker, o: Outcome)
    requires
        w.wf(),
        w.active(),
    ensures
        w.next(o).wf(),
        w.next(o).iteration == w.iteration || w.next(o).iteration == w.iteration + 1,
        (o matches Outcome::Failed(c) && is_retryable(c) && !w.gives_up()) ==> w.delay_ms * 2
            <= u64::MAX,
{
    assert(pow2(0) == 1);
    match o {
        Outcome::Failed(c) => {
            if is_retryable(c) && !w.gives_up() {
                lemma_doubled_delay(
                    w.initial_delay_ms as nat,
                    w.retries as nat,
                    w.max_retries as nat,
                );
            }
        },
        _ => {},
    }
}

/// Number of settled iterations in `s`: successes, permanent failures and
/// iterations abandoned on a non-retryable failure.
pub open spec fn settled_count(s: Stats) -> int {
    s.total_success + s.total_failures + s.total_errors
}

/// Over any run of one worker, each finished loop iteration ends in exactly one
/// of a success, a permanent failure or a non-retryable error, and a retry ends
/// none. So terminal outcomes (successes and permanent failures) never exceed
/// the finished iterations, hence the loop count, and equal them when no call
/// failed fatally. With no retries allowed, the run counts no retry and every
/// transient failure is a permanent one.
pub proof fn lemma_terminal_outcomes(w: Worker, s: Stats, os: Seq<Outcome>)
    requires
        w.wf(),
        s.total_success + os.len() <= usize::MAX,
        s.total_failures + os.len() <= usize::MAX,
        s.total_errors + os.len() <= usize::MAX,
        s.total_resource_exhausted + os.len() <= usize::MAX,
        s.total_unavailable + os.len() <= usize::MAX,
    ensures
        run(w, s, os).0.wf(),
        w.iteration <= run(w, s, os).0.iteration <= w.loop_count,
        settled_count(run(w, s, os).1) - settled_count(s) == run(w, s, os).0.iteration
            - w.iteration,
        terminal_count(run(w, s, os).1) - terminal_count(s) <= run(w, s, os).0.iteration
            - w.iteration,
        !has_fatal(os) ==> terminal_count(run(w, s, os).1) - terminal_count(s) == run(
            w,
            s,
            os,
        ).0.iteration - w.iteration,
        w.max_retries == 0 ==> {
            &&& run(w, s, os).1.total_retries == s.total_retries
            &&& run(w, s, os).1.total_failures - s.total_failures == (run(
                w,
                s,
                os,
            ).1.total_resource_exhausted - s.total_resource_exhausted) + (run(
                w,
                s,
                os,
            ).1.total_unavailable - s.total_unavailable)
        },
    decreases os.len(),
{
    if os.len() > 0 && w.active() {
        let o = os[0];
        let rest = os.drop_first();
        lemma_next_wf(w, o);
        lemma_terminal_outcomes(w.next(o), w.next_stats(o, s), rest);
        if !has_fatal(os) {
            assert(o != Outcome::Failed(ErrorClass::Other)) by {
                if o == Outcome::Failed(ErrorClass::Other) {
                    assert(os[0] == o);
                }
            }
            assert(!has_fatal(rest)) by {
                if has_fatal(rest) {
                    let i = choose|i: int|
                        0 <= i < rest.len() && rest[i] == Outcome::Failed(ErrorClass::Other);
                    assert(os[i + 1] == rest[i]);
                }
            }
        }
    }
}

/// Sum of the entries of `s`.
pub open spec fn sum_of(s: Seq<int>) -> int
    decreases s.len(),
{
    if s.len() == 0 {
        0
    } else {
        sum_of(s.drop_last()) + s.last()
    }
}

/// A run of several workers: when each worker adds at most `loop_count`
/// terminal outcomes (as `lemma_terminal_outcomes` shows of a worker that
/// opened its session, and as a failed session's single failure is when
/// `loop_count` is at least 1), the run adds at most `tasks * loop_count`.
pub proof fn lemma_run_terminal_bound(per_worker: Seq<int>, loop_count: nat)
    requires
        forall|i: int| 0 <= i < per_worker.len() ==> 0 <= #[trigger] per_worker[i] <= loop_count,
    ensures
        0 <= sum_of(per_worker) <= per_worker.len() * loop_count,
    decreases per_worker.len(),
{
    if per_worker.len() > 0 {
        let init = per_worker.drop_last();
        assert forall|i: int| 0 <= i < init.len() implies 0 <= #[trigger] init[i] <= loop_count by {
            assert(init[i] == per_worker[i]);
        }
        lemma_run_terminal_bound(init, loop_count);
        assert(per_worker[per_worker.len() - 1] == per_worker.last());
        assert(init.len() * loop_count + loop_count == per_worker.len() * loop_count)
            by (nonlinear_arith)
            requires
                init.len() + 1 == per_worker.len(),
        ;
    }
}

/// A call that succeeds on the first try of an iteration adds nothing to the
/// retry count.
pub proof fn lemma_first_try_success_adds_no_retry(w: Worker, t: u128, s: Stats)
    requires
        w.wf(),
        w.active(),
        w.retries == 0,
    ensures
        w.next_stats(Outcome::Succeeded(t), s).total_retries == s.total_retries,
        w.next(Outcome::Succeeded(t)).retries == 0,
{
}

/// With no retries allowed, a transient failure is at once a permanent
/// failure: no retry is performed or counted, and the iteration ends.
pub proof fn lemma_no_retries_allowed(w: Worker, c: ErrorClass, s: Stats)
    requires
        w.wf(),
        w.active(),
        w.max_retries == 0,
        is_retryable(c),
        s.total_failures < usize::MAX,
    ensures
        w.next_action(Outcome::Failed(c)) != Action::Retry(w.delay_ms),
        w.next_action(Outcome::Failed(c)) == w.after_iteration_action(),
        w.next(Outcome::Failed(c)).iteration == w.iteration + 1,
        w.next_stats(Outcome::Failed(c), s).total_failures == s.total_failures + 1,
        w.next_stats(Outcome::Failed(c), s).total_retries == s.total_retries,
{
}

/// Within one iteration the backoff delays run `d, 2d, 4d, ...`: a retry
/// waits `initial_delay_ms * 2^k` where `k` is the number of retries already
/// performed, and each retry that follows another waits twice as long.
pub proof fn lemma_backoff_doubles(w: Worker, c1: ErrorClass, c2: ErrorClass)
    requires
        w.wf(),
        w.active(),
        is_retryable(c1),
        is_retryable(c2),
        w.next_action(Outcome::Failed(c1)) is Retry,
        w.next(Outcome::Failed(c1)).next_action(Outcome::Failed(c2)) is Retry,
    ensures
        w.next_action(Outcome::Failed(c1)) == Action::Retry(
            (w.initial_delay_ms * pow2(w.retries as nat)) as u64,
        ),
        w.retries == 0 ==> w.next_action(Outcome::Failed(c1)) == Action::Retry(
            w.initial_delay_ms,
        ),
        w.next(Outcome::Failed(c1)).next_action(Outcome::Failed(c2))->Retry_0 == 2 * w.next_action(
            Outcome::Failed(c1),
        )->Retry_0,
{
    lemma_next_wf(w, Outcome::Failed(c1));
    if w.retries == 0 {
        assert(pow2(w.retries as nat) == 1);
        assert(w.initial_delay_ms * pow2(w.retries as nat) == w.initial_delay_ms)
            by (nonlinear_arith)
            requires
                pow2(w.retries as nat) == 1,
        ;
        assert(w.delay_ms == w.initial_delay_ms);
    }
}

/// Records the failure of a worker that could not open its session; such a
/// worker runs no iteration.
pub fn on_connect_failed(stats: &mut Stats)
    requires
        old(stats).total_failures < usize::MAX,
    ensures
        *final(stats) == (Stats { total_failures: (old(stats).total_failures + 1) as usize, ..*old(stats) }),
{
    stats.record_failure();
}

} // verus!
