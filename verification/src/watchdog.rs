//! Watchdog.
//!
//! The chip has a single watchdog timer. It runs from one of three clock
//! sources, divided by 1 to 256, and has one counter and one comparator.
//! When they match, the watchdog resets the chip or raises an interrupt.
//! Its registers accept a write only right after the two access keys.

use vstd::prelude::*;
use crate::clock::Clocks;
use crate::timer::{TimerWatchdog, lemma_tick_product_fits, timer_divider, timer_divider_of};

verus! {

/// Clock sources for a Watchdog channel.
/// There are only three timer clock sources available.
#[derive(Clone, Copy, Debug)]
pub enum WdtClockSource {
    /// System master clock
    Fclk(Clocks),
    /// 32K clock
    Rc32Khz,
    /// 32M clock
    Pll32Mhz,
}

impl WdtClockSource {
    /// The frequency of the source in Hz.
    pub open spec fn hz(self) -> u32 {
        match self {
            WdtClockSource::Fclk(clocks) => clocks@.sysclk,
            WdtClockSource::Rc32Khz => 32_000,
            WdtClockSource::Pll32Mhz => 32_000_000,
        }
    }

    /// The value of the clock selection field for this source.
    pub fn tccr_value(&self) -> (value: u8)
        ensures
            value == match *self {
                WdtClockSource::Fclk(_) => 0u8,
                WdtClockSource::Rc32Khz => 1u8,
                WdtClockSource::Pll32Mhz => 3u8,
            },
    {
        match self {
            WdtClockSource::Fclk(_) => 0,
            WdtClockSource::Rc32Khz => 1,
            WdtClockSource::Pll32Mhz => 3,
        }
    }

    /// The frequency of the source in Hz.
    pub fn hertz(&self) -> (hz: u32)
        ensures
            hz == self.hz(),
    {
        match self {
            WdtClockSource::Fclk(clocks) => clocks.sysclk(),
            WdtClockSource::Rc32Khz => 32_000,
            WdtClockSource::Pll32Mhz => 32_000_000,
        }
    }
}

/// Error of the watchdog
#[derive(Clone, Copy, Debug, PartialEq, Eq, Structural)]
pub enum WatchdogError {
    Infallible,
}

/// What the watchdog does when it triggers.
#[derive(Clone, Copy, Debug, PartialEq, Eq, Structural)]
pub enum WatchdogMode {
    Interrupt,
    Reset,
}

/// The two access key registers.
#[derive(Clone, Copy, Debug, PartialEq, Eq, Structural)]
pub enum WatchdogKeys {
    Wfar,
    Wsar,
}

impl WatchdogKeys {
    /// Returns the key access register values that must be written
    /// immediately before writing any of the watchdog timer's critical
    /// register values
    pub fn get_key(&self) -> (key: u16)
        ensures
            key == match *self {
                WatchdogKeys::Wfar => 0xBABAu16,
                WatchdogKeys::Wsar => 0xEB10u16,
            },
    {
        match self {
            WatchdogKeys::Wfar => 0xBABA_u16,
            WatchdogKeys::Wsar => 0xEB10_u16,
        }
    }
}

/// The two writes that open the watchdog registers for the next write: each
/// key register with its key, in this order.
pub fn send_access_codes() -> (writes: [(WatchdogKeys, u16); 2])
    ensures
        writes[0] == (WatchdogKeys::Wfar, 0xBABAu16),
        writes[1] == (WatchdogKeys::Wsar, 0xEB10u16),
{
    [
        (WatchdogKeys::Wfar, WatchdogKeys::Wfar.get_key()),
        (WatchdogKeys::Wsar, WatchdogKeys::Wsar.get_key()),
    ]
}

/// The mode that a mode bit stands for: reset when it is set.
pub open spec fn mode_of_bit(bit: bool) -> WatchdogMode {
    if bit {
        WatchdogMode::Reset
    } else {
        WatchdogMode::Interrupt
    }
}

/// Ticks that `ns` nanoseconds last at `clock` Hz, as the 16-bit match
/// register holds them: the low 16 bits of the count.
pub open spec fn timeout_ticks_of(clock: u32, ns: u64) -> u16 {
    (clock * ns / 1_000_000_000 % 0x1_0000) as u16
}

/// Nanoseconds that `ticks` ticks last at `clock` Hz.
pub open spec fn nanos_of(clock: u32, ticks: u16) -> u64 {
    (ticks * 1_000_000_000 / (clock as int)) as u64
}

/// The fields that select the clock of the watchdog.
#[derive(Clone, Copy, Debug, PartialEq, Eq, Structural)]
pub struct WatchdogClockSetup {
    /// Clock selection field.
    pub clock_select: u8,
    /// Divider field: the divisor less one.
    pub divider: u8,
    /// Interrupt clear bit, written after the access keys.
    pub interrupt_clear: bool,
}

/// A configured Watchdog timer ready to be enabled or fed
#[derive(Clone, Copy, Debug)]
pub struct ConfiguredWatchdog0 {
    clock: u32,
}

impl ConfiguredWatchdog0 {
    #[verifier::type_invariant]
    spec fn ticking(self) -> bool {
        self.clock > 0
    }

    /// Tick rate in Hz.
    pub closed spec fn tick_rate(&self) -> u32 {
        self.clock
    }

    /// Tick rate in Hz.
    pub fn clock(&self) -> (hz: u32)
        ensures
            hz == self.tick_rate(),
            hz > 0,
    {
        proof {
            use_type_invariant(self);
        }
        self.clock
    }

    /// The mode that the value `we` of the enable bit is read as.
    pub fn is_enabled(&self, we: bool) -> (mode: WatchdogMode)
        ensures
            mode == mode_of_bit(we),
    {
        match we {
            true => WatchdogMode::Reset,
            false => WatchdogMode::Interrupt,
        }
    }

    /// The value of the match register for a timeout of `ns` nanoseconds.
    pub fn set_timeout(&self, ns: u64) -> (ticks: u16)
        ensures
            ticks == timeout_ticks_of(self.tick_rate(), ns),
    {
        proof {
            lemma_tick_product_fits(self.clock, ns);
        }
        let product = self.clock as u128 * ns as u128;
        (product / 1_000_000_000 % 0x1_0000) as u16
    }

    /// The value of the mode bit for `mode`: set for reset, clear for
    /// interrupt.
    pub fn set_mode(&self, mode: WatchdogMode) -> (wrie: bool)
        ensures
            mode_of_bit(wrie) == mode,
    {
        match mode {
            WatchdogMode::Interrupt => false,
            WatchdogMode::Reset => true,
        }
    }

    /// The mode that the value `wrie` of the mode bit stands for.
    pub fn get_wrie(&self, wrie: bool) -> (mode: WatchdogMode)
        ensures
            mode == mode_of_bit(wrie),
    {
        match wrie {
            true => WatchdogMode::Reset,
            false => WatchdogMode::Interrupt,
        }
    }

    /// The time in nanoseconds that the value `ticks` of the match register
    /// stands for.
    pub fn get_match_time(&self, ticks: u16) -> (ns: u64)
        ensures
            ns == nanos_of(self.tick_rate(), ticks),
    {
        proof {
            use_type_invariant(self);
        }
        (ticks as u64 * 1_000_000_000_u64) / self.clock as u64
    }

    /// The time in nanoseconds that the value `ticks` of the counter stands
    /// for.
    pub fn get_current_time(&self, ticks: u16) -> (ns: u64)
        ensures
            ns == nanos_of(self.tick_rate(), ticks),
    {
        proof {
            use_type_invariant(self);
        }
        (ticks as u64 * 1_000_000_000_u64) / self.clock as u64
    }
}

impl TimerWatchdog {
    /// Sets up the watchdog clock source and tick rate, and returns the
    /// configured watchdog with the fields to write. The timeout must later
    /// fit 65535 ticks: a source of 32 kHz at 125 Hz allows 524 seconds, the
    /// same source undivided 2 seconds.
    ///
    /// `target_clock` must be a tick rate that the source can give: one for
    /// which [`timer_divider`] finds a divisor.
    pub fn set_clock_source(self, source: WdtClockSource, target_clock: u32) -> (out: (
        ConfiguredWatchdog0,
        WatchdogClockSetup,
    ))
        requires
            timer_divider_of(source.hz(), target_clock) is Some,
        ensures
            out.0.tick_rate() == target_clock,
            out.1.clock_select == match source {
                WdtClockSource::Fclk(_) => 0u8,
                WdtClockSource::Rc32Khz => 1u8,
                WdtClockSource::Pll32Mhz => 3u8,
            },
            out.1.divider == timer_divider_of(source.hz(), target_clock).unwrap() - 1,
            !out.1.interrupt_clear,
    {
        let divider = match timer_divider(source.hertz(), target_clock) {
            Some(d) => d,
            None => vstd::pervasive::unreached(),
        };
        (
            ConfiguredWatchdog0 { clock: target_clock },
            WatchdogClockSetup {
                clock_select: source.tccr_value(),
                divider: (divider - 1) as u8,
                interrupt_clear: false,
            },
        )
    }
}

} // verus!
