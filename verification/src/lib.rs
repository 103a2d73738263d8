//! Verified core of a hardware abstraction layer for the BL602 microcontroller.
//!
//! The crate holds the decisions a HAL makes: which clock dividers are exact,
//! in which order the clock tree is programmed, which handler a trap belongs
//! to, how many cycles a delay lasts. Touching the registers themselves is
//! left to the caller, who is handed plain values and ordered lists of
//! operations to apply.
//!
//! The core is the clock engine in [`clock`] and the interrupt management in
//! [`interrupts`], with the delays of [`delay`] under both. The other
//! modules compute the register values of one peripheral each.

pub mod checksum;
pub mod clock;
pub mod delay;
pub mod dma;
pub mod gpio;
pub mod i2c;
pub mod interrupts;
pub mod pwm;
pub mod rtc;
pub mod serial;
pub mod spi;
pub mod timer;
pub mod watchdog;
