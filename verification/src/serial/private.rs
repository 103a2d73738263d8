//! Keeps the serial pin traits closed to other crates.

use vstd::prelude::*;
use crate::gpio::Pin;

verus! {

/// Implemented for the pin combinations of this crate and for nothing else.
pub trait Sealed {

}

impl<TX, RX> Sealed for (TX, RX) {

}

impl<TX, RX, RTS, CTS> Sealed for (TX, RX, RTS, CTS) {

}

impl<const N: u8, MODE> Sealed for Pin<N, MODE> {

}

} // verus!
