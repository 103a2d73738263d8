//! Pulse width modulation: the clock divider and the period of a channel.
//!
//! A channel counts cycles of the system clock, divided down, in a 16-bit
//! counter. The divider is chosen as small as the counter allows, so that
//! the duty cycle has as many steps as it can.

use vstd::prelude::*;

verus! {

/// Value of the clock selection field that selects the system clock.
pub const PWM_CLOCK_SELECT: u8 = 0b11;

/// The fields that set the period of a channel.
#[derive(Clone, Copy, Debug, PartialEq, Eq, Structural)]
pub struct PeriodSetup {
    /// Clock selection field.
    pub clock_select: u8,
    /// Clock divider.
    pub clock_divider: u16,
    /// Cycles of the divided clock in one period, which is also the
    /// largest duty.
    pub period: u16,
}

/// `value`, or the largest 16-bit value if it is above that.
pub open spec fn saturated(value: int) -> u16 {
    if value > u16::MAX {
        u16::MAX
    } else {
        value as u16
    }
}

/// Cycles of a clock of `sysclk` Hz in as many periods as the counter has
/// steps, at `period_rate` periods per second, rounded up: the smallest
/// divider with which one period fits the counter.
pub open spec fn clock_divider_of(sysclk: u32, period_rate: u32) -> int {
    sysclk as int / (u16::MAX * period_rate) + if sysclk as int % (u16::MAX * period_rate) == 0 {
        0int
    } else {
        1
    }
}

/// Cycles of the divided clock in one period.
pub open spec fn period_count_of(sysclk: u32, period_rate: u32) -> int {
    sysclk as int / clock_divider_of(sysclk, period_rate) / (period_rate as int)
}

/// The divider is at least 1, and with it one period fits the counter.
pub proof fn lemma_period_fits_counter(sysclk: u32, period_rate: u32)
    requires
        sysclk > 0,
        period_rate > 0,
    ensures
        1 <= clock_divider_of(sysclk, period_rate) <= sysclk,
        0 <= period_count_of(sysclk, period_rate) <= u16::MAX,
{
    let span = u16::MAX * period_rate;
    let divider = clock_divider_of(sysclk, period_rate);
    let quotient = sysclk as int / span;
    let remainder = sysclk as int % span;
    assert(span > 0);
    assert(sysclk == span * quotient + remainder && 0 <= remainder < span && quotient >= 0)
        by (nonlinear_arith)
        requires
            span > 0,
            sysclk >= 0,
            quotient == sysclk as int / span,
            remainder == sysclk as int % span,
    ;
    assert(divider >= 1 && divider * span >= sysclk && divider <= sysclk) by (nonlinear_arith)
        requires
            span >= 1,
            sysclk >= 1,
            quotient >= 0,
            0 <= remainder < span,
            sysclk == span * quotient + remainder,
            divider == quotient + if remainder == 0 {
                0int
            } else {
                1
            },
    ;
    let divided = sysclk as int / divider;
    assert(0 <= divided <= span) by (nonlinear_arith)
        requires
            divider >= 1,
            sysclk >= 0,
            divider * span >= sysclk,
            divided == sysclk as int / divider,
    ;
    assert(0 <= divided / (period_rate as int) <= u16::MAX) by (nonlinear_arith)
        requires
            period_rate > 0,
            0 <= divided <= u16::MAX * period_rate,
    ;
}

/// Computes the fields for `period_rate` periods per second from a system
/// clock of `sysclk` Hz. The clock is the system clock. The divider is the
/// smallest with which one period fits the 16-bit counter, cut to 16 bits;
/// the period is the count of divided cycles in it.
pub fn pwm_period_setup(sysclk: u32, period_rate: u32) -> (setup: PeriodSetup)
    requires
        sysclk > 0,
        period_rate > 0,
    ensures
        setup == (PeriodSetup {
            clock_select: PWM_CLOCK_SELECT,
            clock_divider: saturated(clock_divider_of(sysclk, period_rate)),
            period: period_count_of(sysclk, period_rate) as u16,
        }),
        period_count_of(sysclk, period_rate) <= u16::MAX,
{
    proof {
        lemma_period_fits_counter(sysclk, period_rate);
    }
    let span: u64 = u16::MAX as u64 * period_rate as u64;
    let clk_hz: u64 = sysclk as u64;
    let clk_div: u64 = clk_hz / span + if clk_hz % span == 0 { 0 } else { 1 };
    let clk_divided: u64 = clk_hz / clk_div;
    let period_val: u64 = clk_divided / period_rate as u64;
    PeriodSetup {
        clock_select: PWM_CLOCK_SELECT,
        clock_divider: if clk_div > u16::MAX as u64 { u16::MAX } else { clk_div as u16 },
        period: period_val as u16,
    }
}

} // verus!
