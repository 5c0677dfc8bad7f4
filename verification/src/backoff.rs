use vstd::prelude::*;

verus! {

/// First delay between polls of the remote platform.
pub const BACKOFF_INITIAL_MS: u64 = 1500;

/// Largest delay between polls; the schedule never grows past it.
pub const BACKOFF_CAP_MS: u64 = 12000;

/// The delay that follows `ms`: grown by a factor of 13/10 and capped.
pub open spec fn next_backoff_spec(ms: int) -> int {
    if ms >= BACKOFF_CAP_MS {
        BACKOFF_CAP_MS as int
    } else if ms * 13 / 10 > BACKOFF_CAP_MS {
        BACKOFF_CAP_MS as int
    } else {
        ms * 13 / 10
    }
}

/// Advances the backoff delay one step.
pub fn next_backoff(ms: u64) -> (r: u64)
    ensures
        r == next_backoff_spec(ms as int),
        r <= BACKOFF_CAP_MS,
{
    if ms >= BACKOFF_CAP_MS {
        BACKOFF_CAP_MS
    } else {
        let grown = ms * 13 / 10;
        if grown > BACKOFF_CAP_MS {
            BACKOFF_CAP_MS
        } else {
            grown
        }
    }
}

/// The whole backoff schedule: the delay before poll `n + 1`.
pub open spec fn backoff_seq(n: nat) -> int
    decreases n,
{
    if n == 0 {
        BACKOFF_INITIAL_MS as int
    } else {
        next_backoff_spec(backoff_seq((n - 1) as nat))
    }
}

/// One growth step never shrinks a delay that is within the cap, and never
/// leaves the window between the initial delay and the cap.
pub proof fn lemma_backoff_step(ms: int)
    requires
        BACKOFF_INITIAL_MS <= ms <= BACKOFF_CAP_MS,
    ensures
        ms <= next_backoff_spec(ms) <= BACKOFF_CAP_MS,
{
    if ms < BACKOFF_CAP_MS {
        vstd::arithmetic::div_mod::lemma_div_is_ordered(10 * ms, 13 * ms, 10);
        vstd::arithmetic::div_mod::lemma_div_multiples_vanish(ms, 10);
    }
}

/// The backoff schedule is non-decreasing and stays between its initial
/// value and the cap.
pub proof fn lemma_backoff_bounded(n: nat)
    ensures
        BACKOFF_INITIAL_MS <= backoff_seq(n) <= BACKOFF_CAP_MS,
        backoff_seq(n) <= backoff_seq(n + 1),
    decreases n,
{
    if n == 0 {
        lemma_backoff_step(BACKOFF_INITIAL_MS as int);
    } else {
        lemma_backoff_bounded((n - 1) as nat);
        lemma_backoff_step(backoff_seq(n));
    }
}

} // verus!
