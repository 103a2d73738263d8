//! Keeps the DMA traits closed to other crates.

use vstd::prelude::*;

verus! {

/// Implemented for the types of this crate and for nothing else.
pub trait Sealed {

}

} // verus!
