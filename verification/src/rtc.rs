//! Real Time Clock: a counter that counts up from the time of its creation,
//! 32768 times per second.

use vstd::prelude::*;

verus! {

/// The counter value that the two halves `h` and `l` of the latched time
/// stand for.
pub open spec fn counter_of(h: u32, l: u32) -> int {
    h * 0x1_0000_0000 + l
}

/// Milliseconds that `counter` counts last, rounded down.
pub open spec fn millis_of_counter(counter: int) -> int {
    counter * 1000 / 32768
}

/// The real time clock, which holds the register block `HBN`.
pub struct Rtc<HBN> {
    hbn: HBN,
}

impl<HBN> Rtc<HBN> {
    /// The register block that the clock holds.
    pub closed spec fn block(&self) -> HBN {
        self.hbn
    }

    /// Creates the RTC and returns it with the two values to write to the
    /// low bit of its control field, in order: clear, which resets the
    /// counter, then set, which starts it.
    pub fn new(hbn: HBN) -> (out: (Rtc<HBN>, [bool; 2]))
        ensures
            out.0.block() == hbn,
            !out.1[0],
            out.1[1],
    {
        (Rtc { hbn }, [false, true])
    }

    /// Elapsed milliseconds since the RTC was created, from the two halves
    /// `h` and `l` of the latched counter.
    pub fn get_millis(&self, h: u32, l: u32) -> (millis: u64)
        ensures
            millis == millis_of_counter(counter_of(h, l)),
    {
        let ts: u128 = h as u128 * 0x1_0000_0000 + l as u128;
        (ts * 1000 / 32768) as u64
    }
}

} // verus!
