//! Keeps the SPI pin traits closed to other crates.

use vstd::prelude::*;
use crate::gpio::Pin;

verus! {

/// Implemented for the pin combinations of this crate and for nothing else.
pub trait Sealed {

}

impl<MISO, MOSI, SCLK> Sealed for (MISO, MOSI, SCLK) {

}

impl<MISO, MOSI, SS, SCLK> Sealed for (MISO, MOSI, SS, SCLK) {

}

impl<const N: u8, MODE> Sealed for Pin<N, MODE> {

}

} // verus!
