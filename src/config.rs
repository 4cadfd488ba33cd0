//! Run parameters and the operation kinds a run can issue.
use vstd::prelude::*;

verus! {

/// 2 to the power `n`.
pub open spec fn pow2(n: nat) -> nat
    decreases n,
{
    if n == 0 {
        1
    } else {
        2 * pow2((n - 1) as nat)
    }
}

/// `pow2` is positive.
pub proof fn lemma_pow2_pos(n: nat)
    ensures
        1 <= pow2(n),
    decreases n,
{
    if n > 0 {
        lemma_pow2_pos((n - 1) as nat);
    }
}

/// `pow2` grows with its exponent.
pub proof fn lemma_pow2_mono(a: nat, b: nat)
    requires
        a <= b,
    ensures
        1 <= pow2(a) <= pow2(b),
    decreases b,
{
    lemma_pow2_pos(a);
    if a < b {
        lemma_pow2_mono(a, (b - 1) as nat);
    }
}

/// Doubling a delay `d * 2^r` gives `d * 2^(r + 1)`, which stays within
/// `d * 2^m` while `r < m`.
pub proof fn lemma_doubled_delay(d: nat, r: nat, m: nat)
    requires
        r + 1 <= m,
    ensures
        d * pow2(r + 1) == 2 * (d * pow2(r)),
        d * pow2(r + 1) <= d * pow2(m),
{
    lemma_pow2_mono(r + 1, m);
    assert(pow2(r + 1) == 2 * pow2(r));
    assert(d * pow2(r + 1) == 2 * (d * pow2(r))) by (nonlinear_arith)
        requires
            pow2(r + 1) == 2 * pow2(r),
    ;
    assert(d * pow2(r + 1) <= d * pow2(m)) by (nonlinear_arith)
        requires
            pow2(r + 1) <= pow2(m),
    ;
}

/// A backoff that starts at `initial_ms` and doubles `max_retries` times stays
/// within `u64`.
pub open spec fn backoff_in_range(initial_ms: u64, max_retries: usize) -> bool {
    initial_ms * pow2(max_retries as nat) <= u64::MAX
}

/// The request kinds a run can issue.
#[derive(Clone, Copy, Debug, PartialEq, Eq, Structural)]
pub enum Operation {
    Cpu,
    Db,
}

/// Parameters of a run, fixed at startup.
#[derive(Clone, Debug)]
pub struct Config {
    pub tasks: usize,
    pub loop_count: usize,
    pub ramp_seconds: u64,
    pub api: String,
    pub max_retries: usize,
    pub retry_initial_delay_ms: u64,
}

impl Config {
    /// Whether the backoff of the longest retry sequence fits in `u64`.
    pub fn backoff_fits(&self) -> (r: bool)
        ensures
            r == backoff_in_range(self.retry_initial_delay_ms, self.max_retries),
    {
        let d = self.retry_initial_delay_ms;
        let m = self.max_retries;
        if d == 0 {
            assert(0 * pow2(m as nat) == 0);
            return true;
        }
        let mut v: u64 = d;
        let mut k: usize = 0;
        assert(pow2(0) == 1);
        while k < m
            invariant
                k <= m,
                v == d * pow2(k as nat),
                d > 0,
                d == self.retry_initial_delay_ms,
                m == self.max_retries,
            decreases m - k,
        {
            proof {
                lemma_doubled_delay(d as nat, k as nat, m as nat);
            }
            if v > u64::MAX / 2 {
                return false;
            }
            v = v * 2;
            k = k + 1;
        }
        true
    }
}

} // verus!
