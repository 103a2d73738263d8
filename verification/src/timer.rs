//! Timer: two 32-bit counters, each with its own clock source, divider and
//! three match registers.

use vstd::prelude::*;
use crate::clock::Clocks;

verus! {

/// The TIMER register block of the peripheral access crate, carried through
/// without looking inside.
#[verifier::external_type_specification]
#[verifier::external_body]
pub struct ExTimer(bl602_pac::TIMER);

/// Largest divisor that a timer clock divider can hold.
pub const TIMER_DIV_MAX: u32 = 256;

/// Error of a count down
#[derive(Clone, Copy, Debug, PartialEq, Eq, Structural)]
pub enum CountDownError {
    /// Indicates that the clock wrapped during count down
    Wrapped,
}

/// Clock sources for a timer channel.
/// There are four timer clock sources available.
#[derive(Clone, Copy, Debug)]
pub enum ClockSource {
    /// System master clock
    Fclk(Clocks),
    /// 32K clock
    Rc32Khz,
    /// 1K clock (32K frequency division)
    Clock1Khz,
    /// 32M clock
    Pll32Mhz,
}

impl ClockSource {
    /// The frequency of the source in Hz.
    pub open spec fn hz(self) -> u32 {
        match self {
            ClockSource::Fclk(clocks) => clocks@.sysclk,
            ClockSource::Rc32Khz => 32_000,
            ClockSource::Clock1Khz => 1_000,
            ClockSource::Pll32Mhz => 32_000_000,
        }
    }

    /// The value of the clock selection field for this source.
    pub fn tccr_value(&self) -> (value: u8)
        ensures
            value == match *self {
                ClockSource::Fclk(_) => 0u8,
                ClockSource::Rc32Khz => 1u8,
                ClockSource::Clock1Khz => 2u8,
                ClockSource::Pll32Mhz => 3u8,
            },
    {
        match self {
            ClockSource::Fclk(_) => 0,
            ClockSource::Rc32Khz => 1,
            ClockSource::Clock1Khz => 2,
            ClockSource::Pll32Mhz => 3,
        }
    }

    /// The frequency of the source in Hz.
    pub fn hertz(&self) -> (hz: u32)
        ensures
            hz == self.hz(),
    {
        match self {
            ClockSource::Fclk(clocks) => clocks.sysclk(),
            ClockSource::Rc32Khz => 32_000,
            ClockSource::Clock1Khz => 1_000,
            ClockSource::Pll32Mhz => 32_000_000,
        }
    }
}

/// When to preload
#[derive(Clone, Copy, Debug, PartialEq, Eq, Structural)]
pub enum Preload {
    /// No preload
    NoPreload,
    /// Preload when comparator 0 matches
    PreloadMatchComparator0,
    /// Preload when comparator 1 matches
    PreloadMatchComparator1,
    /// Preload when comparator 2 matches
    PreloadMatchComparator2,
}

impl Preload {
    /// The value of the preload control field.
    pub fn to_prlcr(&self) -> (value: u8)
        ensures
            value == match *self {
                Preload::NoPreload => 0u8,
                Preload::PreloadMatchComparator0 => 1u8,
                Preload::PreloadMatchComparator1 => 2u8,
                Preload::PreloadMatchComparator2 => 3u8,
            },
    {
        match self {
            Preload::NoPreload => 0,
            Preload::PreloadMatchComparator0 => 1,
            Preload::PreloadMatchComparator1 => 2,
            Preload::PreloadMatchComparator2 => 3,
        }
    }
}

/// Timer Channel 0
pub struct TimerChannel0 {}

/// Timer Channel 1
pub struct TimerChannel1 {}

/// Watchdog Timer
pub struct TimerWatchdog {}

/// Timers obtained from the TIMER register block
pub struct Timers {
    pub channel0: TimerChannel0,
    pub channel1: TimerChannel1,
    pub watchdog: TimerWatchdog,
}

impl Timers {
    /// The two channels and the watchdog. Meant to be called once per boot;
    /// [`TimerExt::split`] does so for the register block of the peripheral
    /// access crate.
    pub fn new() -> (timers: Timers) {
        Timers {
            channel0: TimerChannel0 {  },
            channel1: TimerChannel1 {  },
            watchdog: TimerWatchdog {  },
        }
    }
}

/// Extension trait to split TIMER peripheral into independent channels
pub trait TimerExt {
    fn split(self) -> Timers;
}

impl TimerExt for bl602_pac::TIMER {
    /// Uses up the register block and hands out the timers. Nothing is
    /// written.
    fn split(self) -> Timers {
        Timers::new()
    }
}

/// The divisor from 1 to 256 that takes a source clock of `source` Hz to
/// the tick rate `target`, rounded down, if there is one.
pub open spec fn timer_divider_of(source: u32, target: u32) -> Option<u32> {
    if target != 0 && 1 <= source as int / target as int <= TIMER_DIV_MAX {
        Some((source / target) as u32)
    } else {
        None
    }
}

/// Computes the divisor for a tick rate of `target` Hz from a source clock
/// of `source` Hz. The rate is reachable when the quotient lies between 1
/// and 256.
pub fn timer_divider(source: u32, target: u32) -> (divider: Option<u32>)
    ensures
        divider == timer_divider_of(source, target),
{
    if target == 0 {
        return None;
    }
    let divider = source / target;
    if divider >= 1 && divider <= TIMER_DIV_MAX {
        Some(divider)
    } else {
        None
    }
}

/// The fields that select the clock of a timer.
#[derive(Clone, Copy, Debug, PartialEq, Eq, Structural)]
pub struct TimerClockSetup {
    /// Clock selection field.
    pub clock_select: u8,
    /// Divider field: the divisor less one.
    pub divider: u8,
    /// Counter mode: clear for pre-load mode.
    pub free_running: bool,
    /// Pre-load value.
    pub preload_value: u32,
}

/// Ticks that `ns` nanoseconds last at `clock` Hz, as the 32-bit match
/// registers hold them: the low 32 bits of the count.
pub open spec fn ticks_of(clock: u32, ns: u64) -> u32 {
    (clock * ns / 1_000_000_000 % 0x1_0000_0000) as u32
}

/// Milliseconds that `ticks` ticks last at `clock` Hz, as a 32-bit value
/// holds them.
pub open spec fn millis_of(clock: u32, ticks: u32) -> u32 {
    (ticks * 1000 / (clock as int) % 0x1_0000_0000) as u32
}

/// The product of a tick rate and a time in nanoseconds fits in 128 bits.
pub proof fn lemma_tick_product_fits(clock: u32, ns: u64)
    ensures
        0 <= clock * ns <= u128::MAX,
{
    assert(0 <= clock * ns <= 0xffff_ffff * 0xffff_ffff_ffff_ffff) by (nonlinear_arith)
        requires
            0 <= clock <= 0xffff_ffff,
            0 <= ns <= 0xffff_ffff_ffff_ffff,
    ;
}

/// A configured timer channel ready to use. `N` is the number of the
/// channel.
#[derive(Clone, Copy, Debug)]
pub struct ConfiguredTimerChannel<const N: u8> {
    clock: u32,
    count_down_target: Option<u32>,
    last_count_down_value: Option<u32>,
    is_running: bool,
}

/// A configured timer channel 0.
pub type ConfiguredTimerChannel0 = ConfiguredTimerChannel<0>;

/// A configured timer channel 1.
pub type ConfiguredTimerChannel1 = ConfiguredTimerChannel<1>;

/// What a configured timer channel holds.
pub struct TimerView {
    /// Tick rate in Hz.
    pub clock: u32,
    /// Time at which the count down is over, in milliseconds.
    pub count_down_target: Option<u32>,
    /// Time that the last look at the count down saw, in milliseconds.
    pub last_count_down_value: Option<u32>,
    /// Whether the counter runs.
    pub is_running: bool,
}

impl<const N: u8> View for ConfiguredTimerChannel<N> {
    type V = TimerView;

    closed spec fn view(&self) -> TimerView {
        TimerView {
            clock: self.clock,
            count_down_target: self.count_down_target,
            last_count_down_value: self.last_count_down_value,
            is_running: self.is_running,
        }
    }
}

/// The outcome of a look at a count down with target `target` at the time
/// `now`, after a look that saw `last`: done, not yet, or wrapped.
pub open spec fn count_down_outcome(target: Option<u32>, last: Option<u32>, now: u32) -> Result<
    bool,
    CountDownError,
> {
    match target {
        None => Ok(true),
        Some(millis) => if now >= millis {
            Ok(true)
        } else if last is Some && now < last.unwrap() {
            Err(CountDownError::Wrapped)
        } else {
            Ok(false)
        },
    }
}

impl<const N: u8> ConfiguredTimerChannel<N> {
    #[verifier::type_invariant]
    spec fn ticking(self) -> bool {
        self.clock > 0
    }

    /// Number of the channel.
    pub fn channel(&self) -> (channel: u8)
        ensures
            channel == N,
    {
        N
    }

    /// Tick rate in Hz.
    pub fn clock(&self) -> (hz: u32)
        ensures
            hz == self@.clock,
            hz > 0,
    {
        proof {
            use_type_invariant(self);
        }
        self.clock
    }

    /// Records that the counter has been enabled, and returns the value of
    /// its enable bit.
    pub fn enable(&mut self) -> (enable_bit: bool)
        ensures
            enable_bit,
            final(self)@ == (TimerView { is_running: true, ..old(self)@ }),
    {
        proof {
            use_type_invariant(&*self);
        }
        *self = ConfiguredTimerChannel {
            clock: self.clock,
            count_down_target: self.count_down_target,
            last_count_down_value: self.last_count_down_value,
            is_running: true,
        };
        true
    }

    /// Records that the counter has been disabled, and returns the value of
    /// its enable bit.
    pub fn disable(&mut self) -> (enable_bit: bool)
        ensures
            !enable_bit,
            final(self)@ == (TimerView { is_running: false, ..old(self)@ }),
    {
        proof {
            use_type_invariant(&*self);
        }
        *self = ConfiguredTimerChannel {
            clock: self.clock,
            count_down_target: self.count_down_target,
            last_count_down_value: self.last_count_down_value,
            is_running: false,
        };
        false
    }

    /// Check if the timer is enabled / running
    pub fn is_enabled(&self) -> (running: bool)
        ensures
            running == self@.is_running,
    {
        self.is_running
    }

    /// The value of a match register, or of the pre-load register, for a
    /// time of `ns` nanoseconds.
    pub fn match_ticks(&self, ns: u64) -> (ticks: u32)
        ensures
            ticks == ticks_of(self@.clock, ns),
    {
        proof {
            lemma_tick_product_fits(self.clock, ns);
        }
        let product = self.clock as u128 * ns as u128;
        (product / 1_000_000_000 % 0x1_0000_0000) as u32
    }

    /// Current time in milliseconds, from the counter value `ticks`.
    pub fn current_time(&self, ticks: u32) -> (millis: u32)
        ensures
            millis == millis_of(self@.clock, ticks),
    {
        proof {
            use_type_invariant(self);
        }
        (ticks as u64 * 1000u64 / self.clock as u64 % 0x1_0000_0000) as u32
    }

    /// Starts a count down of `count` milliseconds at the time `now`, in
    /// milliseconds. The target time saturates at the largest value.
    pub fn start(&mut self, now: u32, count: u32)
        ensures
            final(self)@ == (TimerView {
                count_down_target: Some(
                    if now + count <= u32::MAX {
                        (now + count) as u32
                    } else {
                        u32::MAX
                    },
                ),
                last_count_down_value: None,
                ..old(self)@
            }),
    {
        proof {
            use_type_invariant(&*self);
        }
        *self = ConfiguredTimerChannel {
            clock: self.clock,
            count_down_target: Some(now.saturating_add(count)),
            last_count_down_value: None,
            is_running: self.is_running,
        };
    }

    /// Looks at the count down at the time `now`, in milliseconds.
    /// `Ok(true)` says that it is over, or that none was started;
    /// `Ok(false)` that it is not, and a wait would block; `Wrapped` that the
    /// time has gone back since the last look. A look that finds the count
    /// down running remembers its time.
    pub fn wait(&mut self, now: u32) -> (outcome: Result<bool, CountDownError>)
        ensures
            outcome == count_down_outcome(
                old(self)@.count_down_target,
                old(self)@.last_count_down_value,
                now,
            ),
            final(self)@ == (TimerView {
                last_count_down_value: if outcome == Ok::<bool, CountDownError>(false) {
                    Some(now)
                } else {
                    old(self)@.last_count_down_value
                },
                ..old(self)@
            }),
    {
        proof {
            use_type_invariant(&*self);
        }
        match self.count_down_target {
            Some(millis) => {
                if now >= millis {
                    Ok(true)
                } else {
                    let wrapped = match self.last_count_down_value {
                        Some(last) => now < last,
                        None => false,
                    };
                    if wrapped {
                        Err(CountDownError::Wrapped)
                    } else {
                        *self = ConfiguredTimerChannel {
                            clock: self.clock,
                            count_down_target: self.count_down_target,
                            last_count_down_value: Some(now),
                            is_running: self.is_running,
                        };
                        Ok(false)
                    }
                }
            },
            None => Ok(true),
        }
    }
}

/// The configured channel and clock fields for a channel clocked from
/// `source` at a tick rate of `target` Hz.
fn configure<const N: u8>(source: ClockSource, target: u32) -> (out: (
    ConfiguredTimerChannel<N>,
    TimerClockSetup,
))
    requires
        timer_divider_of(source.hz(), target) is Some,
    ensures
        out.0@ == (TimerView {
            clock: target,
            count_down_target: None,
            last_count_down_value: None,
            is_running: false,
        }),
        out.1.clock_select == match source {
            ClockSource::Fclk(_) => 0u8,
            ClockSource::Rc32Khz => 1u8,
            ClockSource::Clock1Khz => 2u8,
            ClockSource::Pll32Mhz => 3u8,
        },
        out.1.divider == timer_divider_of(source.hz(), target).unwrap() - 1,
        !out.1.free_running,
        out.1.preload_value == 0,
{
    let divider = match timer_divider(source.hertz(), target) {
        Some(d) => d,
        None => vstd::pervasive::unreached(),
    };
    (
        ConfiguredTimerChannel {
            clock: target,
            count_down_target: None,
            last_count_down_value: None,
            is_running: false,
        },
        TimerClockSetup {
            clock_select: source.tccr_value(),
            divider: (divider - 1) as u8,
            free_running: false,
            preload_value: 0,
        },
    )
}

impl TimerChannel0 {
    /// Configures the clock source and creates a configured timer channel,
    /// returned with the fields to write: the source, the divider, pre-load
    /// mode and a pre-load value of 0.
    ///
    /// `target` must be a tick rate that the source can give: one for which
    /// [`timer_divider`] finds a divisor.
    pub fn set_clock_source(self, source: ClockSource, target: u32) -> (out: (
        ConfiguredTimerChannel0,
        TimerClockSetup,
    ))
        requires
            timer_divider_of(source.hz(), target) is Some,
        ensures
            out.0@ == (TimerView {
                clock: target,
                count_down_target: None,
                last_count_down_value: None,
                is_running: false,
            }),
            out.1.divider == timer_divider_of(source.hz(), target).unwrap() - 1,
            out.1.clock_select == match source {
                ClockSource::Fclk(_) => 0u8,
                ClockSource::Rc32Khz => 1u8,
                ClockSource::Clock1Khz => 2u8,
                ClockSource::Pll32Mhz => 3u8,
            },
            !out.1.free_running,
            out.1.preload_value == 0,
    {
        configure(source, target)
    }
}

impl TimerChannel1 {
    /// Configures the clock source and creates a configured timer channel,
    /// returned with the fields to write: the source, the divider, pre-load
    /// mode and a pre-load value of 0.
    ///
    /// `target` must be a tick rate that the source can give: one for which
    /// [`timer_divider`] finds a divisor.
    pub fn set_clock_source(self, source: ClockSource, target: u32) -> (out: (
        ConfiguredTimerChannel1,
        TimerClockSetup,
    ))
        requires
            timer_divider_of(source.hz(), target) is Some,
        ensures
            out.0@ == (TimerView {
                clock: target,
                count_down_target: None,
                last_count_down_value: None,
                is_running: false,
            }),
            out.1.divider == timer_divider_of(source.hz(), target).unwrap() - 1,
            out.1.clock_select == match source {
                ClockSource::Fclk(_) => 0u8,
                ClockSource::Rc32Khz => 1u8,
                ClockSource::Clock1Khz => 2u8,
                ClockSource::Pll32Mhz => 3u8,
            },
            !out.1.free_running,
            out.1.preload_value == 0,
    {
        configure(source, target)
    }
}

} // verus!
