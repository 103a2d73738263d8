//! Transfers that use a single DMA channel: the channel's interrupt bits and
//! the fields that set it up.

use vstd::prelude::*;
use crate::dma::typelevel::Sealed;
use crate::dma::{CHANNEL_COUNT, Channel, ChannelIndex, ReadTarget, WriteTarget};

verus! {

/// Most transfers that one operation of a channel can make.
pub const TRANSFER_SIZE_MAX: u16 = 4095;

/// Trait which implements low-level functionality for transfers using a
/// single DMA channel.
pub trait SingleChannel: Sealed {
    /// The index of the DMA channel.
    spec fn index(&self) -> u8;

    /// Returns the index of the DMA channel.
    fn id(&self) -> (id: u8)
        ensures
            id == self.index(),
            id < CHANNEL_COUNT,
    ;
}

impl<CH: ChannelIndex> SingleChannel for Channel<CH> {
    open spec fn index(&self) -> u8 {
        CH::index()
    }

    fn id(&self) -> (id: u8) {
        CH::id()
    }
}

impl<CH: ChannelIndex> Sealed for Channel<CH> {

}

/// The number of bits of a single element
#[derive(Clone, Copy, Debug, PartialEq, Eq, Structural)]
pub enum TransferWidth {
    TW8,
    TW16,
    TW32,
}

impl TransferWidth {
    /// The value of the width fields.
    pub fn bits(&self) -> (bits: u8)
        ensures
            bits == match *self {
                TransferWidth::TW8 => 0u8,
                TransferWidth::TW16 => 1u8,
                TransferWidth::TW32 => 2u8,
            },
    {
        match self {
            TransferWidth::TW8 => 0,
            TransferWidth::TW16 => 1,
            TransferWidth::TW32 => 2,
        }
    }
}

/// The number of elements in a single transfer burst
#[derive(Clone, Copy, Debug, PartialEq, Eq, Structural)]
pub enum BurstSize {
    BS1,
    BS4,
    BS8,
    BS16,
}

impl BurstSize {
    /// The value of the burst size fields.
    pub fn bits(&self) -> (bits: u8)
        ensures
            bits == match *self {
                BurstSize::BS1 => 0u8,
                BurstSize::BS4 => 1u8,
                BurstSize::BS8 => 2u8,
                BurstSize::BS16 => 3u8,
            },
    {
        match self {
            BurstSize::BS1 => 0,
            BurstSize::BS4 => 1,
            BurstSize::BS8 => 2,
            BurstSize::BS16 => 3,
        }
    }
}

/// Who takes part in a transfer.
#[derive(Clone, Copy, Debug, PartialEq, Eq, Structural)]
pub enum FlowControl {
    /// Memory to memory transfer
    M2M,
    /// Memory to peripheral transfer
    M2P,
    /// Peripheral to memory transfer
    P2M,
    /// Peripheral to peripheral transfer
    P2P,
}

impl FlowControl {
    /// The flow control for a source and a sink with these request numbers,
    /// of which memory has none.
    pub open spec fn between(source: Option<u8>, sink: Option<u8>) -> FlowControl {
        match (source, sink) {
            (None, None) => FlowControl::M2M,
            (None, Some(_)) => FlowControl::M2P,
            (Some(_), None) => FlowControl::P2M,
            (Some(_), Some(_)) => FlowControl::P2P,
        }
    }

    /// The value of the flow control field.
    pub fn bits(&self) -> (bits: u8)
        ensures
            bits == match *self {
                FlowControl::M2M => 0u8,
                FlowControl::M2P => 1u8,
                FlowControl::P2M => 2u8,
                FlowControl::P2P => 3u8,
            },
    {
        match self {
            FlowControl::M2M => 0b000,
            FlowControl::M2P => 0b001,
            FlowControl::P2M => 0b010,
            FlowControl::P2P => 0b011,
        }
    }
}

/// The bit of channel `id` in the interrupt status and clear registers.
pub open spec fn channel_bit(id: u8) -> u32 {
    if id == 0 {
        1
    } else if id == 1 {
        2
    } else if id == 2 {
        4
    } else {
        8
    }
}

/// Whether the bit of channel `id` is set in `status`.
pub open spec fn channel_pending(status: u32, id: u8) -> bool {
    status / channel_bit(id) % 2 == 1
}

/// The bit of channel `id` in the interrupt status and clear registers.
pub fn irq_bit(id: u8) -> (bit: u32)
    requires
        id < CHANNEL_COUNT,
    ensures
        bit == channel_bit(id),
{
    assert(id < 4 ==> 1u32 << id == if id == 0 {
        1u32
    } else if id == 1 {
        2u32
    } else if id == 2 {
        4u32
    } else {
        8u32
    }) by (bit_vector);
    1u32 << id
}

/// Looks for a pending interrupt of channel `id` in the value `status` of an
/// interrupt status register. The result is the value to write to the clear
/// register, the bit of the channel, when the interrupt is pending, and
/// `None` when it is not.
pub fn check_irq(status: u32, id: u8) -> (clear: Option<u32>)
    requires
        id < CHANNEL_COUNT,
    ensures
        clear == if channel_pending(status, id) {
            Some(channel_bit(id))
        } else {
            None
        },
{
    let bit = irq_bit(id);
    assert(bit == 1 || bit == 2 || bit == 4 || bit == 8);
    assert((bit == 1 || bit == 2 || bit == 4 || bit == 8) ==> ((status & bit != 0) <==> (status
        / bit % 2 == 1))) by (bit_vector);
    if (status & bit) != 0 {
        Some(bit)
    } else {
        None
    }
}

/// The fields that set a channel up for one transfer. Burst sizes and
/// widths are those of single bytes.
#[derive(Clone, Copy, Debug, PartialEq, Eq, Structural)]
pub struct ChannelSetup {
    /// Number of transfers to make.
    pub transfer_size: u16,
    /// Source burst size field.
    pub src_burst: u8,
    /// Destination burst size field.
    pub dst_burst: u8,
    /// Source width field.
    pub src_width: u8,
    /// Destination width field.
    pub dst_width: u8,
    /// Source address increments after each transfer.
    pub src_increment: bool,
    /// Destination address increments after each transfer.
    pub dst_increment: bool,
    /// Protection field.
    pub protection: u8,
    /// Terminal count interrupt enable.
    pub tc_interrupt: bool,
    /// Request number of the source peripheral, 0 for memory.
    pub src_peripheral: u8,
    /// Request number of the destination peripheral, 0 for memory.
    pub dst_peripheral: u8,
    /// Who takes part.
    pub flow_control: FlowControl,
    /// Mask bit of the terminal count interrupt.
    pub tc_mask: bool,
    /// Mask bit of the error interrupt.
    pub err_mask: bool,
    /// Source address.
    pub src_addr: u32,
    /// Destination address.
    pub dst_addr: u32,
    /// Value for both interrupt clear registers: the bit of the channel.
    pub irq_clear: u32,
}

/// Bits of a channel's configuration register that a setup writes: the two
/// peripherals, the flow control and the two interrupt masks.
pub const CONFIG_FIELDS_MASK: u32 = 0xfffe;

/// 1 for a set bit, 0 for a clear one.
pub open spec fn bit_of(flag: bool) -> int {
    if flag {
        1
    } else {
        0
    }
}

impl ChannelSetup {
    /// The control register: the size in bits 0 to 11, the burst sizes in
    /// bits 12 to 14 and 15 to 17, the widths in bits 18 to 20 and 21 to 23,
    /// the increments in bits 26 and 27, the protection in bits 28 to 30 and
    /// the interrupt enable in bit 31. Each value is cut to the width of
    /// its field.
    pub open spec fn control_image(self) -> int {
        self.transfer_size % 0x1000 + (self.src_burst % 8) * 0x1000 + (self.dst_burst % 8)
            * 0x8000 + (self.src_width % 8) * 0x4_0000 + (self.dst_width % 8) * 0x20_0000
            + bit_of(self.src_increment) * 0x400_0000 + bit_of(self.dst_increment) * 0x800_0000
            + (self.protection % 8) * 0x1000_0000 + bit_of(self.tc_interrupt) * 0x8000_0000
    }

    /// The fields of the configuration register, at their places: the
    /// source peripheral in bits 1 to 5, the destination peripheral in bits
    /// 6 to 10, the flow control in bits 11 to 13, the error mask in bit 14
    /// and the terminal count mask in bit 15.
    pub open spec fn config_image(self) -> int {
        (self.src_peripheral % 32) * 2 + (self.dst_peripheral % 32) * 0x40 + (match self.flow_control {
            FlowControl::M2M => 0int,
            FlowControl::M2P => 1,
            FlowControl::P2M => 2,
            FlowControl::P2P => 3,
        }) * 0x800 + bit_of(self.err_mask) * 0x4000 + bit_of(self.tc_mask) * 0x8000
    }

    /// The word to write to the control register.
    pub fn control_word(&self) -> (word: u32)
        ensures
            word == self.control_image(),
    {
        let si: u32 = if self.src_increment { 0x400_0000 } else { 0 };
        let di: u32 = if self.dst_increment { 0x800_0000 } else { 0 };
        let i: u32 = if self.tc_interrupt { 0x8000_0000 } else { 0 };
        (self.transfer_size % 0x1000) as u32 + (self.src_burst % 8) as u32 * 0x1000 + (
        self.dst_burst % 8) as u32 * 0x8000 + (self.src_width % 8) as u32 * 0x4_0000 + (
        self.dst_width % 8) as u32 * 0x20_0000 + si + di + (self.protection % 8) as u32
            * 0x1000_0000 + i
    }

    /// The bits to put in place of those under [`CONFIG_FIELDS_MASK`] in the
    /// configuration register.
    pub fn config_fields(&self) -> (fields: u32)
        ensures
            fields == self.config_image(),
            fields <= CONFIG_FIELDS_MASK,
    {
        let ie: u32 = if self.err_mask { 0x4000 } else { 0 };
        let itc: u32 = if self.tc_mask { 0x8000 } else { 0 };
        (self.src_peripheral % 32) as u32 * 2 + (self.dst_peripheral % 32) as u32 * 0x40
            + self.flow_control.bits() as u32 * 0x800 + ie + itc
    }
}

/// Number of transfers for a source of `src_count` words and a sink of
/// `dst_count` words: the smaller count, and the largest size at most.
pub open spec fn transfer_size_of(src_count: u32, dst_count: u32) -> u16 {
    if src_count <= dst_count && src_count <= TRANSFER_SIZE_MAX {
        src_count as u16
    } else if dst_count <= TRANSFER_SIZE_MAX {
        dst_count as u16
    } else {
        TRANSFER_SIZE_MAX
    }
}

/// The fields for a transfer on channel `id` from a source at `src` with
/// request number `rx_treq` to a sink at `dst` with request number
/// `tx_treq`; `src` and `dst` are each an address and a count of words.
pub open spec fn channel_setup_of(
    id: u8,
    src: (u32, u32),
    src_incr: bool,
    rx_treq: Option<u8>,
    dst: (u32, u32),
    dst_incr: bool,
    tx_treq: Option<u8>,
) -> ChannelSetup {
    ChannelSetup {
        transfer_size: transfer_size_of(src.1, dst.1),
        src_burst: 0,
        dst_burst: 0,
        src_width: 0,
        dst_width: 0,
        src_increment: src_incr,
        dst_increment: dst_incr,
        protection: 0,
        tc_interrupt: true,
        src_peripheral: match rx_treq {
            Some(s) => s,
            None => 0,
        },
        dst_peripheral: match tx_treq {
            Some(d) => d,
            None => 0,
        },
        flow_control: FlowControl::between(rx_treq, tx_treq),
        tc_mask: false,
        err_mask: true,
        src_addr: src.0,
        dst_addr: dst.0,
        irq_clear: channel_bit(id),
    }
}

/// Computes the fields that set channel `id` up for a transfer, from what
/// the source and the sink say of themselves.
pub fn channel_setup(
    id: u8,
    src: (u32, u32),
    src_incr: bool,
    rx_treq: Option<u8>,
    dst: (u32, u32),
    dst_incr: bool,
    tx_treq: Option<u8>,
) -> (setup: ChannelSetup)
    requires
        id < CHANNEL_COUNT,
    ensures
        setup == channel_setup_of(id, src, src_incr, rx_treq, dst, dst_incr, tx_treq),
{
    let (src_addr, src_count) = src;
    let (dst_addr, dst_count) = dst;
    let count = if src_count <= dst_count { src_count } else { dst_count };
    // limit to max transfer size
    let len: u16 = if count <= TRANSFER_SIZE_MAX as u32 { count as u16 } else { TRANSFER_SIZE_MAX };
    let (srcph, dstph, flowctrl) = match (rx_treq, tx_treq) {
        // Memory-to-memory
        (None, None) => (0, 0, FlowControl::M2M),
        // Memory-to-peripheral
        (None, Some(d)) => (0, d, FlowControl::M2P),
        // Peripheral-to-memory
        (Some(s), None) => (s, 0, FlowControl::P2M),
        // Peripheral-to-peripheral
        (Some(s), Some(d)) => (s, d, FlowControl::P2P),
    };
    ChannelSetup {
        transfer_size: len,
        src_burst: 0,
        dst_burst: 0,
        src_width: 0,
        dst_width: 0,
        src_increment: src_incr,
        dst_increment: dst_incr,
        protection: 0,
        tc_interrupt: true,
        src_peripheral: srcph,
        dst_peripheral: dstph,
        flow_control: flowctrl,
        tc_mask: false,
        err_mask: true,
        src_addr,
        dst_addr,
        irq_clear: irq_bit(id),
    }
}

/// Asks the source `from` and the sink `to` what they are, and computes the
/// fields that set the channel `ch` up for a transfer between them. The
/// channel is left as it was, and so is the source, which is only read. A
/// target is free in what it answers, and the sink is free in what being
/// asked does to it, so of the rest this much holds whatever they do: the
/// size is within the limit, the interrupt bit is the channel's, and the
/// fields are as [`channel_setup`] gives them for some answers.
pub fn config<CH, FROM, TO>(ch: &mut CH, from: &FROM, to: &mut TO) -> (setup: ChannelSetup) where
    CH: SingleChannel,
    FROM: ReadTarget,
    TO: WriteTarget,

    ensures
        *final(ch) == *old(ch),
        setup.transfer_size <= TRANSFER_SIZE_MAX,
        setup.irq_clear == channel_bit(old(ch).index()),
        exists|src: (u32, u32), si: bool, rx: Option<u8>, dst: (u32, u32), di: bool, tx: Option<u8>|
            setup == channel_setup_of(old(ch).index(), src, si, rx, dst, di, tx),
{
    let src = from.rx_address_count();
    let src_incr = from.rx_increment();
    let dst = to.tx_address_count();
    let dst_incr = to.tx_increment();
    let rx_treq = FROM::rx_treq();
    let tx_treq = TO::tx_treq();
    let setup = channel_setup(ch.id(), src, src_incr, rx_treq, dst, dst_incr, tx_treq);
    assert(setup == channel_setup_of(ch.index(), src, src_incr, rx_treq, dst, dst_incr, tx_treq));
    setup
}

} // verus!
