//! Delays measured on the machine-mode cycle counter (`mcycle`).

use vstd::prelude::*;

verus! {

/// Number of values the 64-bit cycle counter runs through before it wraps.
pub open spec fn counter_modulus() -> int {
    0x1_0000_0000_0000_0000
}

/// Forward distance from `previous` to `now` on a counter that wraps at 2^64.
pub open spec fn forward_distance(previous: u64, now: u64) -> int {
    if now >= previous {
        now - previous
    } else {
        now + counter_modulus() - previous
    }
}

/// Counter value reached after `ticks` more cycles, starting at `since`.
pub open spec fn counter_after(since: u64, ticks: u64) -> u64 {
    if since + ticks < counter_modulus() {
        (since + ticks) as u64
    } else {
        (since + ticks - counter_modulus()) as u64
    }
}

/// Cycles that `amount` units of time last at `frequency` Hz, where one
/// second holds `units_per_second` units. The quotient is rounded down.
pub open spec fn cycles_in(amount: int, frequency: int, units_per_second: int) -> int {
    amount * frequency / units_per_second
}

/// Converts real-world durations into cycle counts for a core that runs at a
/// known frequency, and decides when a busy-wait is over.
#[derive(Clone, Copy, Debug)]
pub struct McycleDelay {
    core_frequency: u32,
}

impl McycleDelay {
    /// Core frequency in Hz that durations are converted with.
    pub closed spec fn frequency(&self) -> u32 {
        self.core_frequency
    }

    /// Constructs the delay provider for a core clocked at `freq` Hz.
    pub fn new(freq: u32) -> (delay: Self)
        ensures
            delay.frequency() == freq,
    {
        McycleDelay { core_frequency: freq }
    }

    /// Core frequency in Hz.
    pub fn core_frequency(&self) -> (freq: u32)
        ensures
            freq == self.frequency(),
    {
        self.core_frequency
    }

    /// Cycles elapsed between the counter readings `previous_cycle_count` and
    /// `now`, the later one. The subtraction wraps, so the result is the
    /// forward distance even when the counter passed its maximum in between.
    pub fn cycles_since(previous_cycle_count: u64, now: u64) -> (elapsed: u64)
        ensures
            elapsed == forward_distance(previous_cycle_count, now),
    {
        now.wrapping_sub(previous_cycle_count)
    }

    /// One turn of the busy-wait for `cycle_count` cycles that began at the
    /// counter reading `start`: `true` while the wait must go on at the
    /// reading `now`, `false` once `cycle_count` cycles have elapsed.
    pub fn delay_cycles(cycle_count: u64, start: u64, now: u64) -> (waiting: bool)
        ensures
            waiting == (forward_distance(start, now) < cycle_count),
    {
        McycleDelay::cycles_since(start, now) < cycle_count
    }

    /// Cycles that `ns` nanoseconds last.
    pub fn cycles_for_ns(&self, ns: u32) -> (cycles: u64)
        ensures
            cycles == cycles_in(ns as int, self.frequency() as int, 1_000_000_000),
    {
        proof {
            lemma_product_fits(ns, self.core_frequency);
        }
        (ns as u64 * (self.core_frequency as u64)) / 1_000_000_000
    }

    /// Cycles that `us` microseconds last.
    pub fn cycles_for_us(&self, us: u32) -> (cycles: u64)
        ensures
            cycles == cycles_in(us as int, self.frequency() as int, 1_000_000),
    {
        proof {
            lemma_product_fits(us, self.core_frequency);
        }
        (us as u64 * (self.core_frequency as u64)) / 1_000_000
    }

    /// Cycles that `ms` milliseconds last.
    pub fn cycles_for_ms(&self, ms: u32) -> (cycles: u64)
        ensures
            cycles == cycles_in(ms as int, self.frequency() as int, 1_000),
    {
        proof {
            lemma_product_fits(ms, self.core_frequency);
        }
        (ms as u64 * (self.core_frequency as u64)) / 1_000
    }
}

/// The product of two 32-bit values fits in 64 bits.
pub proof fn lemma_product_fits(a: u32, b: u32)
    ensures
        0 <= a * b <= u64::MAX,
{
    assert(0 <= a * b <= 0xffff_ffff * 0xffff_ffff) by (nonlinear_arith)
        requires
            0 <= a <= 0xffff_ffff,
            0 <= b <= 0xffff_ffff,
    ;
}

/// A reading taken `ticks` cycles after `since` is `ticks` cycles ahead of
/// it, whether or not the counter wrapped in between.
pub proof fn lemma_elapsed_is_forward_distance(since: u64, ticks: u64)
    ensures
        forward_distance(since, counter_after(since, ticks)) == ticks,
{
}

/// The elapsed count never decreases while the counter moves on without
/// overtaking the start: once a wait is over it stays over.
pub proof fn lemma_wait_stays_over(start: u64, ticks: u64, more: u64, cycle_count: u64)
    requires
        ticks + more < counter_modulus(),
        forward_distance(start, counter_after(start, ticks)) >= cycle_count,
    ensures
        forward_distance(start, counter_after(start, (ticks + more) as u64)) >= cycle_count,
{
}

} // verus!
