//! Inter-Integrated Circuit (I2C) bus, in master mode with seven-bit
//! addresses: the pins of the bus, the clock period, and the packing of
//! bytes into the words of the FIFO.
//!
//! The pins are a tuple `(scl, sda)`, each configured by `into_i2c`.

use vstd::prelude::*;
use crate::delay::{McycleDelay, cycles_in};
use crate::gpio::Pin;
use self::private::Sealed;

mod private;

verus! {

/// I2C error
#[derive(Clone, Copy, Debug, PartialEq, Eq, Structural)]
pub enum Error {
    /// Rx overflow occurred
    RxOverflow,
    /// Rx underflow occurred
    RxUnderflow,
    /// Tx overflow occurred
    TxOverflow,
    /// Tx underflow occurred
    TxUnderflow,
    /// Timeout waiting for fifo occurred
    Timeout,
}

/// SDA pins
pub trait SdaPin<I2C>: Sealed {

}

/// SCL pins
pub trait SclPin<I2C>: Sealed {

}

/// I2C pins
pub trait Pins<I2C>: Sealed {

}

impl<I2C, MODE> SclPin<I2C> for Pin<0, MODE> {

}

impl<I2C, MODE> SdaPin<I2C> for Pin<1, MODE> {

}

impl<I2C, MODE> SclPin<I2C> for Pin<2, MODE> {

}

impl<I2C, MODE> SdaPin<I2C> for Pin<3, MODE> {

}

impl<I2C, MODE> SclPin<I2C> for Pin<4, MODE> {

}

impl<I2C, MODE> SdaPin<I2C> for Pin<5, MODE> {

}

impl<I2C, MODE> SclPin<I2C> for Pin<6, MODE> {

}

impl<I2C, MODE> SdaPin<I2C> for Pin<7, MODE> {

}

impl<I2C, MODE> SclPin<I2C> for Pin<8, MODE> {

}

impl<I2C, MODE> SdaPin<I2C> for Pin<9, MODE> {

}

impl<I2C, MODE> SclPin<I2C> for Pin<10, MODE> {

}

impl<I2C, MODE> SdaPin<I2C> for Pin<11, MODE> {

}

impl<I2C, MODE> SclPin<I2C> for Pin<12, MODE> {

}

impl<I2C, MODE> SdaPin<I2C> for Pin<13, MODE> {

}

impl<I2C, MODE> SclPin<I2C> for Pin<14, MODE> {

}

impl<I2C, MODE> SdaPin<I2C> for Pin<15, MODE> {

}

impl<I2C, MODE> SclPin<I2C> for Pin<16, MODE> {

}

impl<I2C, MODE> SdaPin<I2C> for Pin<17, MODE> {

}

impl<I2C, MODE> SclPin<I2C> for Pin<18, MODE> {

}

impl<I2C, MODE> SdaPin<I2C> for Pin<19, MODE> {

}

impl<I2C, MODE> SclPin<I2C> for Pin<20, MODE> {

}

impl<I2C, MODE> SdaPin<I2C> for Pin<21, MODE> {

}

impl<I2C, MODE> SclPin<I2C> for Pin<22, MODE> {

}

impl<I2C, SCL, SDA> Pins<I2C> for (SCL, SDA) where SCL: SclPin<I2C>, SDA: SdaPin<I2C> {

}

/// Longest phase of the bus clock, in cycles of the I2C clock.
pub const I2C_PERIOD_MAX: u32 = 256;

/// Timeout that a bus starts with, in milliseconds.
pub const DEFAULT_TIMEOUT_MS: u16 = 2048;

/// Most bytes that one packet holds.
pub const PACKET_MAX: usize = 255;

/// Length of one of the four phases of a bus clock of `freq` Hz, in cycles
/// of an I2C clock of `i2c_clk` Hz, when it fits the period fields: from 2
/// to 256 cycles.
pub open spec fn i2c_period_of(i2c_clk: u32, freq: u32) -> Option<u32> {
    if freq != 0 && 1 < i2c_clk as int / freq as int / 4 <= I2C_PERIOD_MAX {
        Some((i2c_clk as int / freq as int / 4) as u32)
    } else {
        None
    }
}

/// Computes the phase length of the bus clock. The frequency cannot be more
/// than an eighth of the I2C clock, nor so low that a phase exceeds 256
/// cycles.
pub fn i2c_period(i2c_clk: u32, freq: u32) -> (period: Option<u32>)
    ensures
        period == i2c_period_of(i2c_clk, freq),
{
    if freq == 0 {
        return None;
    }
    let len = i2c_clk / freq / 4;
    if len > I2C_PERIOD_MAX || len <= 1 {
        None
    } else {
        Some(len)
    }
}

/// Core frequency in Hz that timeouts are counted at: the highest that the
/// chip runs at, so that a timeout is never shorter than asked for.
pub const TIMEOUT_CLOCK: u32 = 192_000_000;

/// The error that the receive flags of the FIFO stand for, if any. An
/// overflow is reported before an underflow.
pub fn rx_error(rx_overflow: bool, rx_underflow: bool) -> (error: Option<Error>)
    ensures
        error == if rx_overflow {
            Some(Error::RxOverflow)
        } else if rx_underflow {
            Some(Error::RxUnderflow)
        } else {
            None
        },
{
    if rx_overflow {
        Some(Error::RxOverflow)
    } else if rx_underflow {
        Some(Error::RxUnderflow)
    } else {
        None
    }
}

/// The error that the transmit flags of the FIFO stand for, if any. An
/// overflow is reported before an underflow.
pub fn tx_error(tx_overflow: bool, tx_underflow: bool) -> (error: Option<Error>)
    ensures
        error == if tx_overflow {
            Some(Error::TxOverflow)
        } else if tx_underflow {
            Some(Error::TxUnderflow)
        } else {
            None
        },
{
    if tx_overflow {
        Some(Error::TxOverflow)
    } else if tx_underflow {
        Some(Error::TxUnderflow)
    } else {
        None
    }
}

/// Number of 32-bit words that hold `len` bytes.
pub open spec fn word_count_of(len: int) -> int {
    (len + 3) / 4
}

/// The byte at place `i` of `bytes`, 0 past their end.
pub open spec fn byte_or_zero(bytes: Seq<u8>, i: int) -> int {
    if 0 <= i < bytes.len() {
        bytes[i] as int
    } else {
        0
    }
}

/// The word at place `w` of the packed form of `bytes`: four bytes, the
/// first in the lowest place, with zeros past the end.
pub open spec fn packed_word(bytes: Seq<u8>, w: int) -> u32 {
    (byte_or_zero(bytes, 4 * w) + byte_or_zero(bytes, 4 * w + 1) * 0x100 + byte_or_zero(
        bytes,
        4 * w + 2,
    ) * 0x1_0000 + byte_or_zero(bytes, 4 * w + 3) * 0x100_0000) as u32
}

/// The words that the transmit FIFO is fed for `bytes`.
pub open spec fn packed(bytes: Seq<u8>) -> Seq<u32> {
    Seq::new(word_count_of(bytes.len() as int) as nat, |w: int| packed_word(bytes, w))
}

/// The byte at place `k`, 0 to 3, of the word `word`, the lowest first.
pub open spec fn byte_of_word(word: u32, k: int) -> u8 {
    if k == 0 {
        (word % 0x100) as u8
    } else if k == 1 {
        (word / 0x100 % 0x100) as u8
    } else if k == 2 {
        (word / 0x1_0000 % 0x100) as u8
    } else {
        (word / 0x100_0000 % 0x100) as u8
    }
}

/// The first `len` bytes that the words `words` hold.
pub open spec fn unpacked(words: Seq<u32>, len: int) -> Seq<u8> {
    Seq::new(len as nat, |i: int| byte_of_word(words[i / 4], i % 4))
}

/// Number of 32-bit words that hold `len` bytes.
pub fn word_count(len: usize) -> (count: usize)
    ensures
        count == word_count_of(len as int),
{
    len / 4 + if len % 4 > 0 { 1 } else { 0 }
}

/// The packet length field for a packet of `len` bytes: the length less
/// one. A packet holds from 1 to 255 bytes.
pub fn packet_length_field(len: usize) -> (field: Option<u8>)
    ensures
        field is Some <==> 1 <= len <= PACKET_MAX,
        field matches Some(f) ==> f == len - 1,
{
    if len >= 1 && len <= PACKET_MAX {
        Some((len - 1) as u8)
    } else {
        None
    }
}

/// Packs `buffer` into the words that the transmit FIFO is fed: four bytes
/// to a word, the first in the lowest place, the last word filled up with
/// zeros.
pub fn pack_words(buffer: &[u8]) -> (words: Vec<u32>)
    requires
        buffer.len() <= PACKET_MAX,
    ensures
        words@ == packed(buffer@),
{
    let count = word_count(buffer.len());
    let mut words: Vec<u32> = Vec::new();
    let mut w: usize = 0;
    while w < count
        invariant
            w <= count,
            count == word_count_of(buffer.len() as int),
            buffer.len() <= PACKET_MAX,
            words@ == Seq::new(w as nat, |k: int| packed_word(buffer@, k)),
        decreases count - w,
    {
        let base = 4 * w;
        let b0: u32 = buffer[base] as u32;
        let b1: u32 = if base + 1 < buffer.len() { buffer[base + 1] as u32 } else { 0 };
        let b2: u32 = if base + 2 < buffer.len() { buffer[base + 2] as u32 } else { 0 };
        let b3: u32 = if base + 3 < buffer.len() { buffer[base + 3] as u32 } else { 0 };
        let word = b0 + b1 * 0x100 + b2 * 0x1_0000 + b3 * 0x100_0000;
        words.push(word);
        w += 1;
        assert(words@ =~= Seq::new(w as nat, |k: int| packed_word(buffer@, k)));
    }
    assert(words@ =~= packed(buffer@));
    words
}

/// Fills `buffer` from the words read from the receive FIFO: byte `i` is
/// byte `i % 4` of word `i / 4`, the lowest first.
pub fn unpack_bytes(words: &[u32], buffer: &mut [u8])
    requires
        word_count_of(old(buffer).len() as int) <= words.len(),
    ensures
        final(buffer)@ == unpacked(words@, old(buffer).len() as int),
{
    let len = buffer.len();
    let mut i: usize = 0;
    while i < len
        invariant
            i <= len,
            len == buffer.len(),
            len == old(buffer).len(),
            word_count_of(len as int) <= words.len(),
            forall|k: int| 0 <= k < i ==> buffer@[k] == byte_of_word(words@[k / 4], k % 4),
        decreases len - i,
    {
        let word = words[i / 4];
        let byte: u8 = match i % 4 {
            0 => (word % 0x100) as u8,
            1 => (word / 0x100 % 0x100) as u8,
            2 => (word / 0x1_0000 % 0x100) as u8,
            _ => (word / 0x100_0000 % 0x100) as u8,
        };
        buffer[i] = byte;
        i += 1;
    }
    assert(buffer@ =~= unpacked(words@, len as int));
}

/// What is packed comes out again: unpacking the packed form of a packet
/// gives the packet back.
pub proof fn lemma_unpack_inverts_pack(bytes: Seq<u8>)
    ensures
        unpacked(packed(bytes), bytes.len() as int) == bytes,
{
    let words = packed(bytes);
    assert forall|i: int| 0 <= i < bytes.len() implies byte_of_word(words[i / 4], i % 4)
        == bytes[i] by {
        let w = i / 4;
        assert(0 <= w < word_count_of(bytes.len() as int));
        assert(words[w] == packed_word(bytes, w));
        let b0 = byte_or_zero(bytes, 4 * w);
        let b1 = byte_or_zero(bytes, 4 * w + 1);
        let b2 = byte_or_zero(bytes, 4 * w + 2);
        let b3 = byte_or_zero(bytes, 4 * w + 3);
        lemma_word_bytes(b0, b1, b2, b3);
    }
    assert(unpacked(packed(bytes), bytes.len() as int) =~= bytes);
}

/// The four bytes of a word built from `b0` to `b3` are `b0` to `b3`.
proof fn lemma_word_bytes(b0: int, b1: int, b2: int, b3: int)
    requires
        0 <= b0 < 0x100,
        0 <= b1 < 0x100,
        0 <= b2 < 0x100,
        0 <= b3 < 0x100,
    ensures
        ({
            let word = b0 + b1 * 0x100 + b2 * 0x1_0000 + b3 * 0x100_0000;
            &&& 0 <= word <= u32::MAX
            &&& word % 0x100 == b0
            &&& word / 0x100 % 0x100 == b1
            &&& word / 0x1_0000 % 0x100 == b2
            &&& word / 0x100_0000 % 0x100 == b3
        }),
{
}

/// I2C peripheral operating in master mode supporting seven bit addressing
pub struct I2c<I2C, PINS> {
    /// i2c peripheral instance
    i2c: I2C,
    /// sda and scl pins for this i2c interface
    pins: PINS,
    /// timeout (in milliseconds)
    timeout: u16,
}

impl<I2C, PINS> I2c<I2C, PINS> {
    /// The peripheral that the bus holds.
    pub closed spec fn i2c(&self) -> I2C {
        self.i2c
    }

    /// The pins that the bus holds.
    pub closed spec fn pins(&self) -> PINS {
        self.pins
    }

    /// Timeout when waiting for the FIFO, in milliseconds.
    pub closed spec fn timeout_ms(&self) -> u16 {
        self.timeout
    }

    /// Gives the peripheral and the pins back.
    pub fn release(self) -> (parts: (I2C, PINS))
        ensures
            parts == (self.i2c(), self.pins()),
    {
        (self.i2c, self.pins)
    }

    /// Set the timeout (in milliseconds) when waiting for fifo (rx and tx).
    /// This defaults to 2048
    pub fn set_timeout(&mut self, timeout: u16)
        ensures
            final(self).timeout_ms() == timeout,
            final(self).i2c() == old(self).i2c(),
            final(self).pins() == old(self).pins(),
    {
        self.timeout = timeout;
    }

    /// Timeout when waiting for the FIFO, in milliseconds.
    pub fn timeout(&self) -> (timeout: u16)
        ensures
            timeout == self.timeout_ms(),
    {
        self.timeout
    }

    /// Whether a wait for the FIFO that has lasted `elapsed` cycles has
    /// lasted longer than the timeout.
    pub fn timed_out(&self, elapsed: u64) -> (over: bool)
        ensures
            over == (elapsed > cycles_in(self.timeout_ms() as int, TIMEOUT_CLOCK as int, 1_000)),
    {
        elapsed > McycleDelay::new(TIMEOUT_CLOCK).cycles_for_ms(self.timeout as u32)
    }
}

impl<I2C, PINS: Pins<I2C>> I2c<I2C, PINS> {
    /// Constructs an I2C instance in master mode with seven-bit addresses
    /// and the default timeout, and returns it with the value for every
    /// phase field of the period registers: the phase length less one. The
    /// pins must have been configured by `into_i2c`.
    ///
    /// `freq` must be a bus frequency that an I2C clock of `i2c_clk` Hz can
    /// give: one for which [`i2c_period`] finds a period.
    pub fn new(i2c: I2C, pins: PINS, freq: u32, i2c_clk: u32) -> (out: (Self, u8))
        requires
            i2c_period_of(i2c_clk, freq) is Some,
        ensures
            out.0.i2c() == i2c,
            out.0.pins() == pins,
            out.0.timeout_ms() == DEFAULT_TIMEOUT_MS,
            out.1 == i2c_period_of(i2c_clk, freq).unwrap() - 1,
    {
        let len = match i2c_period(i2c_clk, freq) {
            Some(len) => len,
            None => vstd::pervasive::unreached(),
        };
        (I2c { i2c, pins, timeout: DEFAULT_TIMEOUT_MS }, (len - 1) as u8)
    }
}

} // verus!
