//! Serial communication: the frame format, the pins of a port and the
//! decisions of the FIFO interface.

use vstd::prelude::*;
use crate::gpio::{
    Uart0Cts, Uart0Rts, Uart0Rx, Uart0Tx, Uart1Cts, Uart1Rts, Uart1Rx, Uart1Tx, UartMux, UartPin,
    UartSig,
};
use self::private::Sealed;

mod private;

verus! {

/// Number of bytes that the transmit FIFO holds.
pub const TX_FIFO_DEPTH: u8 = 32;

/// Serial error
#[derive(Clone, Copy, Debug, PartialEq, Eq, Structural)]
#[non_exhaustive]
pub enum Error {
    /// Framing error
    Framing,
    /// Noise error
    Noise,
    /// RX buffer overrun
    Overrun,
    /// Parity check error
    Parity,
}

/// Order of the bits transmitted and received on the wire
#[derive(Clone, Copy, Debug, PartialEq, Eq, Structural)]
pub enum Order {
    /// Each byte is sent out LSB-first
    LsbFirst,
    /// Each byte is sent out MSB-first
    MsbFirst,
}

/// Parity check
#[derive(Clone, Copy, Debug, PartialEq, Eq, Structural)]
pub enum Parity {
    /// No parity check
    ParityNone,
    /// Even parity bit
    ParityEven,
    /// Odd parity bit
    ParityOdd,
}

/// Stop bits
#[derive(Clone, Copy, Debug, PartialEq, Eq, Structural)]
pub enum StopBits {
    /// 1 stop bit
    STOP1,
    /// 0.5 stop bits
    STOP0P5,
    /// 2 stop bits
    STOP2,
    /// 1.5 stop bits
    STOP1P5,
}

/// Word length
#[derive(Clone, Copy, Debug, PartialEq, Eq, Structural)]
pub enum WordLength {
    Five,
    Six,
    Seven,
    Eight,
}

/// Interrupt event
#[derive(Clone, Copy, Debug, PartialEq, Eq, Structural)]
pub enum Event {
    /// UART RX FIFO error interrupt
    RxFifoError,
    /// UART TX FIFO error interrupt
    TxFifoError,
    /// UART RX parity check error interrupt
    RxParityError,
    /// UART RX Time-out interrupt
    RxTimeout,
    /// UART RX FIFO ready (rx_fifo_cnt > rx_fifo_th) interrupt
    RxFifoReady,
    /// UART TX FIFO ready (tx_fifo_cnt > tx_fifo_th) interrupt
    TxFifoReady,
    /// UART RX transfer end interrupt
    RxTransferEnd,
    /// UART TX transfer end interrupt
    TxTransferEnd,
}

/// Serial configuration
#[derive(Clone, Copy, Debug, PartialEq, Eq, Structural)]
pub struct Config {
    /// Baud rate in bits per second.
    pub baudrate: u32,
    pub order: Order,
    pub parity: Parity,
    pub stopbits: StopBits,
    pub wordlength: WordLength,
}

/// The configuration that a port starts from: 115200 baud, LSB first, no
/// parity, one stop bit, eight data bits.
pub open spec fn default_config() -> Config {
    Config {
        baudrate: 115_200,
        order: Order::LsbFirst,
        parity: Parity::ParityNone,
        stopbits: StopBits::STOP1,
        wordlength: WordLength::Eight,
    }
}

impl Config {
    /// Sets the target baudrate
    pub fn baudrate(self, baudrate: u32) -> (config: Self)
        ensures
            config == (Config { baudrate, ..self }),
    {
        Config { baudrate, ..self }
    }

    /// Sets parity to no parity check
    pub fn parity_none(self) -> (config: Self)
        ensures
            config == (Config { parity: Parity::ParityNone, ..self }),
    {
        Config { parity: Parity::ParityNone, ..self }
    }

    /// Sets parity check to even
    pub fn parity_even(self) -> (config: Self)
        ensures
            config == (Config { parity: Parity::ParityEven, ..self }),
    {
        Config { parity: Parity::ParityEven, ..self }
    }

    /// Sets parity check to odd
    pub fn parity_odd(self) -> (config: Self)
        ensures
            config == (Config { parity: Parity::ParityOdd, ..self }),
    {
        Config { parity: Parity::ParityOdd, ..self }
    }

    /// Sets the target stopbits
    pub fn stopbits(self, stopbits: StopBits) -> (config: Self)
        ensures
            config == (Config { stopbits, ..self }),
    {
        Config { stopbits, ..self }
    }
}

impl Default for Config {
    fn default() -> (config: Config)
        ensures
            config == default_config(),
    {
        Config {
            baudrate: 115_200,
            order: Order::LsbFirst,
            parity: Parity::ParityNone,
            stopbits: StopBits::STOP1,
            wordlength: WordLength::Eight,
        }
    }
}

/// The register fields that set up a port.
#[derive(Clone, Copy, Debug, PartialEq, Eq, Structural)]
pub struct UartSetup {
    /// Bit period field of both directions: clock cycles per bit, less one.
    pub bit_period: u16,
    /// Bit inversion: set for MSB first.
    pub bit_inverse: bool,
    /// Parity enable of both directions.
    pub parity_enable: bool,
    /// Parity selection of both directions: set for odd.
    pub parity_odd: bool,
    /// Data bit count field of both directions: data bits less one.
    pub data_bits: u8,
    /// Stop bit count field of the transmitter, in half bits less one.
    pub stop_bits: u8,
    /// Transmitter runs freely.
    pub tx_freerun: bool,
    /// Transmitter waits for CTS.
    pub tx_cts_enable: bool,
    /// Transmitter enable.
    pub tx_enable: bool,
    /// Receiver input de-glitch.
    pub rx_deglitch: bool,
    /// Receiver drives RTS by software.
    pub rx_rts_sw_mode: bool,
    /// Receiver enable.
    pub rx_enable: bool,
}

/// The data bit count field for `wordlength`.
pub open spec fn data_bits_field(wordlength: WordLength) -> u8 {
    match wordlength {
        WordLength::Five => 4,
        WordLength::Six => 5,
        WordLength::Seven => 6,
        WordLength::Eight => 7,
    }
}

/// The stop bit count field for `stopbits`.
pub open spec fn stop_bits_field(stopbits: StopBits) -> u8 {
    match stopbits {
        StopBits::STOP0P5 => 0,
        StopBits::STOP1 => 1,
        StopBits::STOP1P5 => 2,
        StopBits::STOP2 => 3,
    }
}

/// The fields for a port with the frame format of `config`, `divisor` clock
/// cycles per bit, and the lines `has_tx`, `has_rx` and `has_cts`.
pub open spec fn uart_setup(config: Config, divisor: u16, has_tx: bool, has_rx: bool, has_cts: bool)
    -> UartSetup {
    UartSetup {
        bit_period: (divisor - 1) as u16,
        bit_inverse: config.order == Order::MsbFirst,
        parity_enable: config.parity != Parity::ParityNone,
        parity_odd: config.parity == Parity::ParityOdd,
        data_bits: data_bits_field(config.wordlength),
        stop_bits: stop_bits_field(config.stopbits),
        tx_freerun: true,
        tx_cts_enable: has_cts,
        tx_enable: has_tx,
        rx_deglitch: false,
        rx_rts_sw_mode: false,
        rx_enable: has_rx,
    }
}

/// The first UART of the chip, as a tag for its pins.
pub struct UART0;

/// The second UART of the chip, as a tag for its pins.
pub struct UART1;

/// Serial transmit pins
pub trait TxPin<UART>: Sealed {

}

/// Serial receive pins
pub trait RxPin<UART>: Sealed {

}

/// Serial rts pins
pub trait RtsPin<UART>: Sealed {

}

/// Serial cts pins
pub trait CtsPin<UART>: Sealed {

}

impl<const S: u8, PIN: UartPin<UartSig<S>>> TxPin<UART0> for (PIN, UartMux<S, Uart0Tx>) {

}

impl<const S: u8, PIN: UartPin<UartSig<S>>> RxPin<UART0> for (PIN, UartMux<S, Uart0Rx>) {

}

impl<const S: u8, PIN: UartPin<UartSig<S>>> RtsPin<UART0> for (PIN, UartMux<S, Uart0Rts>) {

}

impl<const S: u8, PIN: UartPin<UartSig<S>>> CtsPin<UART0> for (PIN, UartMux<S, Uart0Cts>) {

}

impl<const S: u8, PIN: UartPin<UartSig<S>>> TxPin<UART1> for (PIN, UartMux<S, Uart1Tx>) {

}

impl<const S: u8, PIN: UartPin<UartSig<S>>> RxPin<UART1> for (PIN, UartMux<S, Uart1Rx>) {

}

impl<const S: u8, PIN: UartPin<UartSig<S>>> RtsPin<UART1> for (PIN, UartMux<S, Uart1Rts>) {

}

impl<const S: u8, PIN: UartPin<UartSig<S>>> CtsPin<UART1> for (PIN, UartMux<S, Uart1Cts>) {

}

/// Serial pins: which lines a combination of pins provides.
pub trait Pins<UART>: Sealed {
    const HAS_TX: bool;

    const HAS_RX: bool;

    const HAS_RTS: bool;

    const HAS_CTS: bool;
}

impl<UART, TX, RX> Pins<UART> for (TX, RX) where TX: TxPin<UART>, RX: RxPin<UART> {
    const HAS_TX: bool = true;

    const HAS_RX: bool = true;

    const HAS_RTS: bool = false;

    const HAS_CTS: bool = false;
}

impl<UART, TX, RX, RTS, CTS> Pins<UART> for (TX, RX, RTS, CTS) where
    TX: TxPin<UART>,
    RX: RxPin<UART>,
    RTS: RtsPin<UART>,
    CTS: CtsPin<UART>,
 {
    const HAS_TX: bool = true;

    const HAS_RX: bool = true;

    const HAS_RTS: bool = true;

    const HAS_CTS: bool = true;
}

/// Serial abstraction: a UART and the pins it runs on.
pub struct Serial<UART, PINS> {
    uart: UART,
    pins: PINS,
}

impl<UART, PINS> Serial<UART, PINS> {
    /// The UART that the port holds.
    pub closed spec fn uart(&self) -> UART {
        self.uart
    }

    /// The pins that the port holds.
    pub closed spec fn pins(&self) -> PINS {
        self.pins
    }

    /// Gives the UART and the pins back.
    pub fn free(self) -> (parts: (UART, PINS))
        ensures
            parts == (self.uart(), self.pins()),
    {
        (self.uart, self.pins)
    }

    /// Whether a byte can be written: the transmit FIFO has `tx_fifo_cnt`
    /// free places, and a write would block when it has none.
    pub fn write_ready(tx_fifo_cnt: u8) -> (ready: bool)
        ensures
            ready == (tx_fifo_cnt != 0),
    {
        tx_fifo_cnt != 0
    }

    /// Whether everything written has left the port: every place of the
    /// transmit FIFO is free and the transmitter is not busy.
    pub fn flush_done(tx_fifo_cnt: u8, bus_busy: bool) -> (done: bool)
        ensures
            done == (tx_fifo_cnt == TX_FIFO_DEPTH && !bus_busy),
    {
        tx_fifo_cnt == TX_FIFO_DEPTH && !bus_busy
    }

    /// The byte received, if there is one: the receive FIFO holds
    /// `rx_fifo_cnt` bytes and its data register reads `rdata`, of which
    /// the low byte counts. `None` means that a read would block.
    pub fn read_word(rx_fifo_cnt: u8, rdata: u32) -> (word: Option<u8>)
        ensures
            rx_fifo_cnt == 0 <==> word is None,
            word matches Some(b) ==> b == rdata % 256,
    {
        if rx_fifo_cnt == 0 {
            None
        } else {
            assert(rdata & 0xff == rdata % 256) by (bit_vector);
            Some((rdata & 0xff) as u8)
        }
    }
}

impl<UART, PINS: Pins<UART>> Serial<UART, PINS> {
    /// Takes `uart` and `pins` into a port with the frame format of
    /// `config` and `divisor` clock cycles per bit, and returns the port
    /// with the register fields that set it up. The transmitter, the
    /// receiver and CTS are enabled where the pins provide the line.
    pub fn new(
        uart: UART,
        config: Config,
        pins: PINS,
        divisor: u16,
    ) -> (out: (Self, UartSetup))
        requires
            divisor >= 1,
        ensures
            out.0.uart() == uart,
            out.0.pins() == pins,
            out.1 == uart_setup(config, divisor, PINS::HAS_TX, PINS::HAS_RX, PINS::HAS_CTS),
    {
        // Bit inverse configuration; MsbFirst => 1, LsbFirst => 0
        let order_cfg = match config.order {
            Order::LsbFirst => false,
            Order::MsbFirst => true,
        };
        let data_bits_cfg: u8 = match config.wordlength {
            WordLength::Five => 4,
            WordLength::Six => 5,
            WordLength::Seven => 6,
            WordLength::Eight => 7,
        };
        let stop_bits_cfg: u8 = match config.stopbits {
            StopBits::STOP0P5 => 0,
            StopBits::STOP1 => 1,
            StopBits::STOP1P5 => 2,
            StopBits::STOP2 => 3,
        };
        let (parity_enable, parity_type) = match config.parity {
            Parity::ParityNone => (false, false),
            Parity::ParityEven => (true, false),
            Parity::ParityOdd => (true, true),
        };
        let setup = UartSetup {
            bit_period: divisor - 1,
            bit_inverse: order_cfg,
            parity_enable,
            parity_odd: parity_type,
            data_bits: data_bits_cfg,
            stop_bits: stop_bits_cfg,
            tx_freerun: true,
            tx_cts_enable: PINS::HAS_CTS,
            tx_enable: PINS::HAS_TX,
            rx_deglitch: false,
            rx_rts_sw_mode: false,
            rx_enable: PINS::HAS_RX,
        };
        (Serial { uart, pins }, setup)
    }
}

} // verus!
