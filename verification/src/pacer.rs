//! The pacer: work tokens on an absolute-time schedule.
//!
//! A rate-capped dispatch emits token `i` at `start + i * (1s / qps)`.
//! The schedule is computed from absolute targets, never by sleeping a
//! relative delay per token, so drift does not accumulate with the
//! token count.  Times are monotonic nanoseconds.

use vstd::prelude::*;
use vstd::arithmetic::div_mod::lemma_div_is_ordered;
use vstd::arithmetic::mul::lemma_mul_inequality;

verus! {

/// Nanoseconds in a second.
pub const NANOS_PER_SEC: u64 = 1_000_000_000;

/// When token `i` of a dispatch paced at `qps` is due: `start` plus
/// `i` shares of a second, in nanoseconds rounded down.
pub open spec fn spec_schedule(start: int, i: int, qps: int) -> int
    recommends
        qps >= 1,
        i >= 0,
{
    start + (i * NANOS_PER_SEC) / qps
}

/// The absolute time token `i` is due at.
pub fn schedule_nanos(start: u64, i: usize, qps: u64) -> (t: u64)
    requires
        qps >= 1,
        spec_schedule(start as int, i as int, qps as int) <= u64::MAX,
    ensures
        t == spec_schedule(start as int, i as int, qps as int),
{
    let ticks: u128 = (i as u128) * (NANOS_PER_SEC as u128) / (qps as u128);
    proof {
        assert(ticks <= u64::MAX);
    }
    start + (ticks as u64)
}

/// Later tokens are never due earlier: the schedule is monotone in the
/// token index.
pub proof fn lemma_schedule_monotone(start: int, i: int, j: int, qps: int)
    requires
        0 <= i <= j,
        qps >= 1,
    ensures
        spec_schedule(start, i, qps) <= spec_schedule(start, j, qps),
{
    lemma_mul_inequality(i, j, NANOS_PER_SEC as int);
    lemma_div_is_ordered(i * NANOS_PER_SEC, j * NANOS_PER_SEC, qps);
}

/// Law: the schedule drift floor.  Over any `n` tokens paced at `qps`,
/// the last token is due `((n - 1) * 1s) / qps` nanoseconds after the
/// first — the wall time from first to last emission is bounded below
/// by the target rate, and the bound does not degrade with `n`.
pub proof fn lemma_pacing_floor(start: int, n: int, qps: int)
    requires
        n >= 1,
        qps >= 1,
    ensures
        spec_schedule(start, n - 1, qps) - spec_schedule(start, 0, qps) == ((n - 1)
            * NANOS_PER_SEC) / qps,
{
    assert(spec_schedule(start, 0, qps) == start);
}

/// The full schedule of a fixed-count paced dispatch: entry `i` is when
/// token `i` is due.
pub fn paced_schedule(start: u64, qps: u64, n: usize) -> (v: Vec<u64>)
    requires
        qps >= 1,
        n >= 1 ==> spec_schedule(start as int, n - 1 as int, qps as int) <= u64::MAX,
    ensures
        v@.len() == n,
        forall|i: int|
            0 <= i < n ==> v@[i] == spec_schedule(start as int, i, qps as int),
        forall|i: int, j: int| 0 <= i <= j < n ==> v@[i] <= v@[j],
{
    let mut v: Vec<u64> = Vec::new();
    let mut i: usize = 0;
    while i < n
        invariant
            i <= n,
            qps >= 1,
            n >= 1 ==> spec_schedule(start as int, n - 1 as int, qps as int) <= u64::MAX,
            v@.len() == i,
            forall|k: int|
                0 <= k < i ==> v@[k] == spec_schedule(start as int, k, qps as int),
        decreases n - i,
    {
        proof {
            lemma_schedule_monotone(start as int, i as int, n - 1 as int, qps as int);
        }
        let t = schedule_nanos(start, i, qps);
        v.push(t);
        i = i + 1;
    }
    proof {
        assert forall|a: int, b: int| 0 <= a <= b < n implies v@[a] <= v@[b] by {
            lemma_schedule_monotone(start as int, a, b, qps as int);
        }
    }
    v
}

/// Whether the pacer of a deadline-bounded dispatch emits another
/// token: it stops once the deadline has passed.
pub fn pacer_should_emit(now: u64, deadline: u64) -> (b: bool)
    ensures
        b == (now <= deadline),
{
    now <= deadline
}

} // verus!
