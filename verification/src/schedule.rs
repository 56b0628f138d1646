use vstd::prelude::*;

verus! {

/// The control-loop period in milliseconds: one tick per second. Fixed at
/// build time, not reconfigurable at runtime.
pub const TICK_PERIOD_MS: u64 = 1000;

/// The k-th tick deadline of the ideal schedule anchored at `start`.
pub open spec fn spec_deadline(start: u64, k: nat) -> int {
    start + k * TICK_PERIOD_MS
}

/// Advances the schedule: the next wake time is one period after the
/// previous *deadline*, never one period after the work of the tick
/// finished, so variable per-tick work cannot accumulate drift.
pub fn next_deadline(prev: u64) -> (r: u64)
    requires
        prev + TICK_PERIOD_MS <= u64::MAX,
    ensures
        r == prev + TICK_PERIOD_MS,
{
    prev + TICK_PERIOD_MS
}

/// Successive deadlines of the ideal schedule are exactly one period apart,
/// independent of how long the work between them took.
pub proof fn lemma_cadence(start: u64, k: nat)
    ensures
        spec_deadline(start, k + 1) - spec_deadline(start, k) == TICK_PERIOD_MS,
{
    assert((k + 1) * TICK_PERIOD_MS == k * TICK_PERIOD_MS + TICK_PERIOD_MS) by (nonlinear_arith);
}

} // verus!
