//! Serial Peripheral Interface: the pins of the bus, the clock period and
//! the decisions of the FIFO interface.
//!
//! The pins are a tuple `(miso, mosi, ss, sclk)`, each configured by
//! `into_spi`. The select line is optional: `(miso, mosi, sclk)` leaves it
//! to the caller.

use vstd::prelude::*;
use crate::clock::Clocks;
use crate::gpio::Pin;

mod private;

verus! {

/// SPI error
#[derive(Clone, Copy, Debug, PartialEq, Eq, Structural)]
#[non_exhaustive]
pub enum Error {
    /// Rx overflow occurred
    RxOverflow,
    /// Rx underflow occurred
    RxUnderflow,
    /// Tx overflow occurred
    TxOverflow,
    /// Tx underflow occurred
    TxUnderflow,
}

/// The bit format to send the data in
#[derive(Clone, Copy, Debug, PartialEq, Eq, Structural)]
pub enum SpiBitFormat {
    /// Least significant bit first
    LsbFirst,
    /// Most significant bit first
    MsbFirst,
}

/// Level of the clock line while the bus is idle.
#[derive(Clone, Copy, Debug, PartialEq, Eq, Structural)]
pub enum Polarity {
    IdleLow,
    IdleHigh,
}

/// Clock transition on which data is captured.
#[derive(Clone, Copy, Debug, PartialEq, Eq, Structural)]
pub enum Phase {
    CaptureOnFirstTransition,
    CaptureOnSecondTransition,
}

/// SPI mode: clock polarity and phase.
#[derive(Clone, Copy, Debug, PartialEq, Eq, Structural)]
pub struct Mode {
    pub polarity: Polarity,
    pub phase: Phase,
}

/// MISO pins
pub trait MisoPin<SPI>: private::Sealed {

}

/// MOSI pins
pub trait MosiPin<SPI>: private::Sealed {

}

/// SS pins
pub trait SsPin<SPI>: private::Sealed {

}

/// SCLK pins
pub trait SclkPin<SPI>: private::Sealed {

}

/// Spi pins
pub trait Pins<SPI>: private::Sealed {

}

impl<SPI, MODE> MisoPin<SPI> for Pin<0, MODE> {

}

impl<SPI, MODE> MosiPin<SPI> for Pin<1, MODE> {

}

impl<SPI, MODE> SsPin<SPI> for Pin<2, MODE> {

}

impl<SPI, MODE> SclkPin<SPI> for Pin<3, MODE> {

}

impl<SPI, MODE> MisoPin<SPI> for Pin<4, MODE> {

}

impl<SPI, MODE> MosiPin<SPI> for Pin<5, MODE> {

}

impl<SPI, MODE> SsPin<SPI> for Pin<6, MODE> {

}

impl<SPI, MODE> SclkPin<SPI> for Pin<7, MODE> {

}

impl<SPI, MODE> MisoPin<SPI> for Pin<8, MODE> {

}

impl<SPI, MODE> MosiPin<SPI> for Pin<9, MODE> {

}

impl<SPI, MODE> SsPin<SPI> for Pin<10, MODE> {

}

impl<SPI, MODE> SclkPin<SPI> for Pin<11, MODE> {

}

impl<SPI, MODE> MisoPin<SPI> for Pin<12, MODE> {

}

impl<SPI, MODE> MosiPin<SPI> for Pin<13, MODE> {

}

impl<SPI, MODE> SsPin<SPI> for Pin<14, MODE> {

}

impl<SPI, MODE> SclkPin<SPI> for Pin<15, MODE> {

}

impl<SPI, MODE> MisoPin<SPI> for Pin<16, MODE> {

}

impl<SPI, MODE> MosiPin<SPI> for Pin<17, MODE> {

}

impl<SPI, MODE> SsPin<SPI> for Pin<18, MODE> {

}

impl<SPI, MODE> SclkPin<SPI> for Pin<19, MODE> {

}

impl<SPI, MODE> MisoPin<SPI> for Pin<20, MODE> {

}

impl<SPI, MODE> MosiPin<SPI> for Pin<21, MODE> {

}

impl<SPI, MODE> SsPin<SPI> for Pin<22, MODE> {

}

impl<SPI, MISO, MOSI, SS, SCLK> Pins<SPI> for (MISO, MOSI, SS, SCLK) where
    MISO: MisoPin<SPI>,
    MOSI: MosiPin<SPI>,
    SS: SsPin<SPI>,
    SCLK: SclkPin<SPI>,
 {

}

impl<SPI, MISO, MOSI, SCLK> Pins<SPI> for (MISO, MOSI, SCLK) where
    MISO: MisoPin<SPI>,
    MOSI: MosiPin<SPI>,
    SCLK: SclkPin<SPI>,
 {

}

/// Longest half period of the bus clock, in cycles of the SPI clock.
pub const SPI_PERIOD_MAX: u32 = 256;

/// Half period of a bus clock of `freq` Hz, in cycles of an SPI clock of
/// `spi_clk` Hz, when it fits the period fields: from 1 to 256 cycles.
pub open spec fn spi_period_of(spi_clk: u32, freq: u32) -> Option<u32> {
    if freq != 0 && 1 <= spi_clk as int / freq as int / 2 <= SPI_PERIOD_MAX {
        Some((spi_clk as int / freq as int / 2) as u32)
    } else {
        None
    }
}

/// Computes the half period of the bus clock. The frequency cannot be more
/// than half of the SPI clock, nor so low that the period exceeds 256 cycles.
pub fn spi_period(spi_clk: u32, freq: u32) -> (period: Option<u32>)
    ensures
        period == spi_period_of(spi_clk, freq),
{
    if freq == 0 {
        return None;
    }
    let len = spi_clk / freq / 2;
    if len > SPI_PERIOD_MAX || len == 0 {
        None
    } else {
        Some(len)
    }
}

/// The register fields that set up the bus in master mode with 8-bit frames.
#[derive(Clone, Copy, Debug, PartialEq, Eq, Structural)]
pub struct SpiSetup {
    /// Master mode in the global parameters.
    pub master_mode: bool,
    /// Swap of MOSI and MISO in the global parameters.
    pub swap: bool,
    /// Every period field: start, stop, both data phases and the interval
    /// between frames. Each holds the half period less one.
    pub period: u8,
    /// Clock polarity: set for idle high.
    pub sclk_pol: bool,
    /// Clock phase: set for capture on the first transition.
    pub sclk_ph: bool,
    /// Continuous transfer.
    pub continuous: bool,
    /// Frame size field: 0 for 8 bits.
    pub frame_size: u8,
    /// Slave enable.
    pub slave_enable: bool,
    /// Master enable.
    pub master_enable: bool,
}

/// The fields for a bus in `mode` with a half period of `period` cycles.
pub open spec fn spi_setup(mode: Mode, period: u32) -> SpiSetup {
    SpiSetup {
        master_mode: true,
        swap: true,
        period: (period - 1) as u8,
        sclk_pol: mode.polarity == Polarity::IdleHigh,
        sclk_ph: mode.phase == Phase::CaptureOnFirstTransition,
        continuous: false,
        frame_size: 0,
        slave_enable: false,
        master_enable: true,
    }
}

/// A Serial Peripheral Interface
pub struct Spi<SPI, PINS> {
    spi: SPI,
    pins: PINS,
}

impl<SPI, PINS> Spi<SPI, PINS> {
    /// The peripheral that the bus holds.
    pub closed spec fn spi(&self) -> SPI {
        self.spi
    }

    /// The pins that the bus holds.
    pub closed spec fn pins(&self) -> PINS {
        self.pins
    }

    /// Gives the peripheral and the pins back.
    pub fn release(self) -> (parts: (SPI, PINS))
        ensures
            parts == (self.spi(), self.pins()),
    {
        (self.spi, self.pins)
    }

    /// The bit inversion field for `format`: set for LSB first.
    pub fn bit_format(&mut self, format: SpiBitFormat) -> (bit_inverse: bool)
        ensures
            bit_inverse == (format == SpiBitFormat::LsbFirst),
            *final(self) == *old(self),
    {
        match format {
            SpiBitFormat::LsbFirst => true,
            SpiBitFormat::MsbFirst => false,
        }
    }

    /// Reads a byte, from what the FIFO registers hold: the two receive
    /// error flags, the number of bytes waiting and the data register, of
    /// which the low byte counts. An overflow is reported before an
    /// underflow; `Ok(None)` means that a read would block.
    pub fn read(rx_overflow: bool, rx_underflow: bool, rx_fifo_cnt: u8, rdata: u32) -> (word:
        Result<Option<u8>, Error>)
        ensures
            word == (if rx_overflow {
                Err(Error::RxOverflow)
            } else if rx_underflow {
                Err(Error::RxUnderflow)
            } else if rx_fifo_cnt == 0 {
                Ok(None)
            } else {
                Ok(Some((rdata % 256) as u8))
            }),
    {
        if rx_overflow {
            Err(Error::RxOverflow)
        } else if rx_underflow {
            Err(Error::RxUnderflow)
        } else if rx_fifo_cnt == 0 {
            Ok(None)
        } else {
            assert(rdata & 0xff == rdata % 256) by (bit_vector);
            Ok(Some((rdata & 0xff) as u8))
        }
    }

    /// Writes the byte `data`, given what the FIFO registers hold: the two
    /// transmit error flags and the number of free places. The result is
    /// the word to store in the data register; `Ok(None)` means that a write
    /// would block. An overflow is reported before an underflow.
    pub fn write(tx_overflow: bool, tx_underflow: bool, tx_fifo_cnt: u8, data: u8) -> (word:
        Result<Option<u32>, Error>)
        ensures
            word == (if tx_overflow {
                Err(Error::TxOverflow)
            } else if tx_underflow {
                Err(Error::TxUnderflow)
            } else if tx_fifo_cnt == 0 {
                Ok(None)
            } else {
                Ok(Some(data as u32))
            }),
    {
        if tx_overflow {
            Err(Error::TxOverflow)
        } else if tx_underflow {
            Err(Error::TxUnderflow)
        } else if tx_fifo_cnt == 0 {
            Ok(None)
        } else {
            Ok(Some(data as u32))
        }
    }
}

impl<SPI, PINS: Pins<SPI>> Spi<SPI, PINS> {
    /// Constructs an SPI instance in 8-bit frame mode, as master, and
    /// returns it with the register fields that set it up. The pins must
    /// have been configured by `into_spi`.
    ///
    /// `freq` must be a bus frequency that the SPI clock of `clocks` can
    /// give: one for which [`spi_period`] finds a period.
    pub fn new(spi: SPI, pins: PINS, mode: Mode, freq: u32, clocks: Clocks) -> (out: (
        Self,
        SpiSetup,
    ))
        requires
            spi_period_of(clocks@.spi_clk, freq) is Some,
        ensures
            out.0.spi() == spi,
            out.0.pins() == pins,
            out.1 == spi_setup(mode, spi_period_of(clocks@.spi_clk, freq).unwrap()),
    {
        let len = match spi_period(clocks.spi_clk(), freq) {
            Some(len) => len,
            None => vstd::pervasive::unreached(),
        };
        let setup = SpiSetup {
            master_mode: true,
            swap: true,
            period: (len - 1) as u8,
            sclk_pol: match mode.polarity {
                Polarity::IdleLow => false,
                Polarity::IdleHigh => true,
            },
            sclk_ph: match mode.phase {
                Phase::CaptureOnFirstTransition => true,
                Phase::CaptureOnSecondTransition => false,
            },
            continuous: false,
            frame_size: 0,
            slave_enable: false,
            master_enable: true,
        };
        (Spi { spi, pins }, setup)
    }
}

} // verus!
