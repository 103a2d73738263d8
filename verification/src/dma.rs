//! Direct Memory Access.
//!
//! Abstraction layer for configuring and using the DMA controller to move
//! data without intervention from the CPU core. The controller has four
//! independent channels that transfer data between memory and peripherals
//! in any combination.

use vstd::prelude::*;
use core::marker::PhantomData;
use self::typelevel::Sealed;

pub mod single_buffer;
pub mod single_channel;
mod typelevel;

verus! {

/// Number of channels of the controller.
pub const CHANNEL_COUNT: u8 = 4;

/// DMA unit.
pub trait DMAExt: Sealed {
    /// Splits the DMA unit into its individual channels.
    fn split(self) -> Channels;
}

/// The DMA engine, which holds the controller's register block `D`.
pub struct DMA<D> {
    dma: D,
}

impl<D> DMA<D> {
    /// The register block that the engine holds.
    pub closed spec fn block(&self) -> D {
        self.dma
    }

    /// Constructs a new instance from the register block `dma`, and returns
    /// it with the value to write to the enable bit of the engine: set.
    pub fn new(dma: D) -> (out: (Self, bool))
        ensures
            out.0.block() == dma,
            out.1,
    {
        (DMA { dma }, true)
    }

    /// Frees the register block, and returns it with the value to write to
    /// the enable bit of the engine: clear.
    pub fn free(self) -> (out: (D, bool))
        ensures
            out.0 == self.block(),
            !out.1,
    {
        (self.dma, false)
    }
}

impl<D> Sealed for DMA<D> {

}

impl<D> DMAExt for DMA<D> {
    fn split(self) -> Channels {
        Channels {
            ch0: Channel { _phantom: PhantomData },
            ch1: Channel { _phantom: PhantomData },
            ch2: Channel { _phantom: PhantomData },
            ch3: Channel { _phantom: PhantomData },
        }
    }
}

/// DMA channel identifier.
pub trait ChannelIndex: Sealed {
    /// Numerical index of the DMA channel (0..3).
    spec fn index() -> u8;

    /// Numerical index of the DMA channel (0..3).
    fn id() -> (id: u8)
        ensures
            id == Self::index(),
            id < CHANNEL_COUNT,
    ;
}

/// DMA channel.
pub struct Channel<CH: ChannelIndex> {
    _phantom: PhantomData<CH>,
}

/// Set of DMA channels.
pub struct Channels {
    /// DMA channel.
    pub ch0: Channel<CH0>,
    /// DMA channel.
    pub ch1: Channel<CH1>,
    /// DMA channel.
    pub ch2: Channel<CH2>,
    /// DMA channel.
    pub ch3: Channel<CH3>,
}

/// DMA channel identifier.
pub struct CH0;

/// DMA channel identifier.
pub struct CH1;

/// DMA channel identifier.
pub struct CH2;

/// DMA channel identifier.
pub struct CH3;

impl Sealed for CH0 {

}

impl Sealed for CH1 {

}

impl Sealed for CH2 {

}

impl Sealed for CH3 {

}

impl ChannelIndex for CH0 {
    open spec fn index() -> u8 {
        0
    }

    fn id() -> (id: u8) {
        0
    }
}

impl ChannelIndex for CH1 {
    open spec fn index() -> u8 {
        1
    }

    fn id() -> (id: u8) {
        1
    }
}

impl ChannelIndex for CH2 {
    open spec fn index() -> u8 {
        2
    }

    fn id() -> (id: u8) {
        2
    }
}

impl ChannelIndex for CH3 {
    open spec fn index() -> u8 {
        3
    }

    fn id() -> (id: u8) {
        3
    }
}

/// Trait which is implemented by anything that can be read via DMA.
pub trait ReadTarget {
    /// Type which is transferred in a single DMA transfer.
    type ReceivedWord;

    /// Returns the request number of this data source (`None` for memory
    /// buffers).
    fn rx_treq() -> Option<u8>;

    /// Returns the address and the maximum number of words that can be
    /// transferred from this data source in a single DMA operation.
    ///
    /// For peripherals, the count should likely be `u32::MAX`. A source that
    /// implements [`EndlessReadTarget`] is suitable for transfers without end
    /// from ring buffers; one with buffers of finite size returns the size of
    /// one buffer here.
    fn rx_address_count(&self) -> (u32, u32);

    /// Returns whether the address shall be incremented after each transfer.
    fn rx_increment(&self) -> bool;
}

/// Marker which signals that `rx_address_count()` can be called multiple
/// times.
///
/// The DMA code never asks for more than two buffers. A peripheral can
/// always return the same values.
pub trait EndlessReadTarget: ReadTarget {

}

/// Trait which is implemented by anything that can be written via DMA.
pub trait WriteTarget {
    /// Type which is transferred in a single DMA transfer.
    type TransmittedWord;

    /// Returns the request number of this data sink (`None` for memory
    /// buffers).
    fn tx_treq() -> Option<u8>;

    /// Returns the address and the maximum number of words that can be
    /// transferred to this data sink in a single DMA operation.
    fn tx_address_count(&mut self) -> (u32, u32);

    /// Returns whether the address shall be incremented after each transfer.
    fn tx_increment(&self) -> bool;
}

/// Marker which signals that `tx_address_count()` can be called multiple
/// times.
pub trait EndlessWriteTarget: WriteTarget {

}

/// A buffer in memory as a source or a sink of bytes: its address and the
/// number of bytes it holds.
#[derive(Clone, Copy, Debug, PartialEq, Eq, Structural)]
pub struct MemoryBuffer {
    /// Address of the first byte.
    pub address: u32,
    /// Number of bytes.
    pub len: u32,
}

impl ReadTarget for MemoryBuffer {
    type ReceivedWord = u8;

    fn rx_treq() -> (treq: Option<u8>)
        ensures
            treq is None,
    {
        None
    }

    fn rx_address_count(&self) -> (out: (u32, u32))
        ensures
            out == (self.address, self.len),
    {
        (self.address, self.len)
    }

    fn rx_increment(&self) -> (increment: bool)
        ensures
            increment,
    {
        true
    }
}

impl WriteTarget for MemoryBuffer {
    type TransmittedWord = u8;

    fn tx_treq() -> (treq: Option<u8>)
        ensures
            treq is None,
    {
        None
    }

    fn tx_address_count(&mut self) -> (out: (u32, u32))
        ensures
            out == (old(self).address, old(self).len),
            *final(self) == *old(self),
    {
        (self.address, self.len)
    }

    fn tx_increment(&self) -> (increment: bool)
        ensures
            increment,
    {
        true
    }
}

} // verus!
