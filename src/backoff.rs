use vstd::prelude::*;

verus! {

/// The delay that follows `current` on a failed cycle: doubled (saturating),
/// then held within `[min, max]`.
pub open spec fn next_delay(current: u64, min: u64, max: u64) -> u64 {
    let doubled: int = if 2 * current > u64::MAX { u64::MAX as int } else { 2 * current };
    if doubled < min {
        min
    } else if doubled > max {
        max
    } else {
        doubled as u64
    }
}

/// `min * 2^k` in unbounded integers.
pub open spec fn scaled(min: nat, k: nat) -> nat
    decreases k,
{
    if k == 0 {
        min
    } else {
        2 * scaled(min, (k - 1) as nat)
    }
}

/// The delay handed out on the `k`-th consecutive failed cycle (from zero).
pub open spec fn delay_after(min: u64, max: u64, k: nat) -> u64 {
    if scaled(min as nat, k) > max {
        max
    } else {
        scaled(min as nat, k) as u64
    }
}

/// Reconnect delay policy: exponential growth from `min`, capped at `max`.
#[derive(Debug, Clone, Copy)]
pub struct Backoff {
    pub current: u64,
    pub min: u64,
    pub max: u64,
}

impl Backoff {
    pub open spec fn wf(&self) -> bool {
        self.min <= self.current <= self.max
    }

    pub fn new(min: u64, max: u64) -> (r: Self)
        requires
            min <= max,
        ensures
            r.wf(),
            r.current == min,
            r.min == min,
            r.max == max,
    {
        Backoff { current: min, min, max }
    }

    /// Returns the current delay and advances to the next one.
    pub fn next(&mut self) -> (r: u64)
        requires
            old(self).wf(),
        ensures
            final(self).wf(),
            r == old(self).current,
            final(self).current == next_delay(old(self).current, old(self).min, old(self).max),
            final(self).min == old(self).min,
            final(self).max == old(self).max,
    {
        let value = self.current;
        let doubled: u64 = if self.current > u64::MAX / 2 {
            u64::MAX
        } else {
            self.current * 2
        };
        self.current = if doubled < self.min {
            self.min
        } else if doubled > self.max {
            self.max
        } else {
            doubled
        };
        value
    }

    /// Back to the smallest delay.
    pub fn reset(&mut self)
        requires
            old(self).wf(),
        ensures
            final(self).wf(),
            final(self).current == old(self).min,
            final(self).min == old(self).min,
            final(self).max == old(self).max,
    {
        self.current = self.min;
    }

    /// Installs new bounds and restarts the sequence from `min`.
    pub fn configure(&mut self, min: u64, max: u64)
        requires
            min <= max,
        ensures
            final(self).wf(),
            final(self).current == min,
            final(self).min == min,
            final(self).max == max,
    {
        self.min = min;
        self.max = max;
        self.current = min;
    }
}

/// Consecutive failures double the delay from `min` until it reaches `max`,
/// where it stays: if the current delay is the `k`-th of that sequence, the
/// next one is the `k + 1`-th.
pub proof fn lemma_backoff_doubles(min: u64, max: u64, k: nat)
    requires
        min <= max,
    ensures
        next_delay(delay_after(min, max, k), min, max) == delay_after(min, max, k + 1),
        delay_after(min, max, 0) == min,
{
    let s = scaled(min as nat, k);
    assert(scaled(min as nat, k + 1) == 2 * s);
    assert(scaled(min as nat, 0) == min);
    lemma_scaled_at_least(min as nat, k);
}

proof fn lemma_scaled_at_least(min: nat, k: nat)
    ensures
        scaled(min, k) >= min,
    decreases k,
{
    if k > 0 {
        lemma_scaled_at_least(min, (k - 1) as nat);
    }
}

} // verus!
