//! Keeps the I2C pin traits closed to other crates.

use vstd::prelude::*;
use crate::gpio::Pin;

verus! {

/// Implemented for the pin combinations of this crate and for nothing else.
pub trait Sealed {

}

impl<SCL, SDA> Sealed for (SCL, SDA) {

}

impl<const N: u8, MODE> Sealed for Pin<N, MODE> {

}

} // verus!
