//! General purpose input/output: pin modes, UART signal routing and the
//! token that stands for the clock configuration registers.
//!
//! A pin's number and its mode are part of its type, so a pin in the wrong
//! mode, or on the wrong signal, is refused when the program is compiled.
//! Changing the mode uses the pin up and hands back the pin in its new mode
//! together with the register fields to write.

use vstd::prelude::*;
use core::marker::PhantomData;

verus! {

/// The GLB register block of the peripheral access crate, carried through
/// without looking inside.
#[verifier::external_type_specification]
#[verifier::external_body]
pub struct ExGlb(bl602_pac::GLB);

/// Number of GPIO pins.
pub const PIN_COUNT: u8 = 23;

/// Number of internal UART signals.
pub const UART_SIGNAL_COUNT: u8 = 8;

/// Pin function of a pin under software control.
pub const FUNC_SWGPIO: u8 = 11;

/// Pin function of a pin that carries a UART signal.
pub const FUNC_UART: u8 = 7;

/// Pin function of a pin that belongs to the SPI peripheral.
pub const FUNC_SPI: u8 = 4;

/// Pin function of a pin that belongs to the I2C peripheral.
pub const FUNC_I2C: u8 = 6;

/// Ownership of the clock configuration registers.
///
/// Configuring the clocks takes this token by value, and it cannot be
/// copied: a second configuration needs a second token.
#[derive(Debug)]
pub struct ClkCfg {
    _ownership: (),
}

/// UART0 RTS (type state)
pub struct Uart0Rts;

/// UART0 CTS (type state)
pub struct Uart0Cts;

/// UART0 TXD (type state)
pub struct Uart0Tx;

/// UART0 RXD (type state)
pub struct Uart0Rx;

/// UART1 RXD (type state)
pub struct Uart1Rx;

/// UART1 RTS (type state)
pub struct Uart1Rts;

/// UART1 CTS (type state)
pub struct Uart1Cts;

/// UART1 TXD (type state)
pub struct Uart1Tx;

/// Internal UART signal number `S` (type state)
pub struct UartSig<const S: u8>;

/// Hi-Z floating pin (type state)
pub struct Floating;

/// Pulled down pin (type state)
pub struct PullDown;

/// Pulled up pin (type state)
pub struct PullUp;

/// Input mode (type state)
pub struct Input<MODE> {
    _mode: PhantomData<MODE>,
}

/// Output mode (type state)
pub struct Output<MODE> {
    _mode: PhantomData<MODE>,
}

/// UART pin mode (type state)
pub struct Uart;

/// SPI pin mode (type state)
pub struct Spi;

/// I2C pin mode (type state)
pub struct I2c;

/// A pin in UART mode that carries the internal signal `SIG`.
pub trait UartPin<SIG> {

}

/// The write that routes one internal UART signal to a UART function.
#[derive(Clone, Copy, Debug, PartialEq, Eq, Structural)]
pub struct SignalSelect {
    /// Number of the internal signal, 0 to 7.
    pub signal: u8,
    /// Function code: 0 to 3 for RTS, CTS, TX, RX of UART0, 4 to 7 for the
    /// same of UART1.
    pub function: u8,
}

/// UART multiplexer for the internal signal `S`, routed to the function
/// `MODE`.
pub struct UartMux<const S: u8, MODE> {
    _mode: PhantomData<MODE>,
}

impl<const S: u8, MODE> UartMux<S, MODE> {
    /// Number of the internal signal.
    pub fn signal(&self) -> (signal: u8)
        ensures
            signal == S,
    {
        S
    }

    /// Routes the signal to UART0 RTS.
    pub fn into_uart0_rts(self) -> (out: (UartMux<S, Uart0Rts>, SignalSelect))
        ensures
            out.1 == (SignalSelect { signal: S, function: 0 }),
    {
        (UartMux { _mode: PhantomData }, SignalSelect { signal: S, function: 0 })
    }

    /// Routes the signal to UART0 CTS.
    pub fn into_uart0_cts(self) -> (out: (UartMux<S, Uart0Cts>, SignalSelect))
        ensures
            out.1 == (SignalSelect { signal: S, function: 1 }),
    {
        (UartMux { _mode: PhantomData }, SignalSelect { signal: S, function: 1 })
    }

    /// Routes the signal to UART0 TX.
    pub fn into_uart0_tx(self) -> (out: (UartMux<S, Uart0Tx>, SignalSelect))
        ensures
            out.1 == (SignalSelect { signal: S, function: 2 }),
    {
        (UartMux { _mode: PhantomData }, SignalSelect { signal: S, function: 2 })
    }

    /// Routes the signal to UART0 RX.
    pub fn into_uart0_rx(self) -> (out: (UartMux<S, Uart0Rx>, SignalSelect))
        ensures
            out.1 == (SignalSelect { signal: S, function: 3 }),
    {
        (UartMux { _mode: PhantomData }, SignalSelect { signal: S, function: 3 })
    }

    /// Routes the signal to UART1 RTS.
    pub fn into_uart1_rts(self) -> (out: (UartMux<S, Uart1Rts>, SignalSelect))
        ensures
            out.1 == (SignalSelect { signal: S, function: 4 }),
    {
        (UartMux { _mode: PhantomData }, SignalSelect { signal: S, function: 4 })
    }

    /// Routes the signal to UART1 CTS.
    pub fn into_uart1_cts(self) -> (out: (UartMux<S, Uart1Cts>, SignalSelect))
        ensures
            out.1 == (SignalSelect { signal: S, function: 5 }),
    {
        (UartMux { _mode: PhantomData }, SignalSelect { signal: S, function: 5 })
    }

    /// Routes the signal to UART1 TX.
    pub fn into_uart1_tx(self) -> (out: (UartMux<S, Uart1Tx>, SignalSelect))
        ensures
            out.1 == (SignalSelect { signal: S, function: 6 }),
    {
        (UartMux { _mode: PhantomData }, SignalSelect { signal: S, function: 6 })
    }

    /// Routes the signal to UART1 RX.
    pub fn into_uart1_rx(self) -> (out: (UartMux<S, Uart1Rx>, SignalSelect))
        ensures
            out.1 == (SignalSelect { signal: S, function: 7 }),
    {
        (UartMux { _mode: PhantomData }, SignalSelect { signal: S, function: 7 })
    }
}

/// The fields to write when a pin changes its mode.
#[derive(Clone, Copy, Debug, PartialEq, Eq, Structural)]
pub struct PinSetup {
    /// Number of the pin.
    pub pin: u8,
    /// Index of the configuration register that holds the pin's fields: two
    /// pins share a register.
    pub cfg_register: u8,
    /// Function of the pin.
    pub func_sel: u8,
    /// Input enable.
    pub input_enable: bool,
    /// Internal pull-up.
    pub pull_up: bool,
    /// Internal pull-down.
    pub pull_down: bool,
    /// Drive strength.
    pub drive: u8,
    /// Schmitt trigger on the input.
    pub schmitt: bool,
    /// Output enable: set exactly when the input is not enabled.
    pub output_enable: bool,
}

/// The fields for pin `pin` with function `func_sel`, pulls `pull_up` and
/// `pull_down`, and `input_enable`.
pub open spec fn pin_setup(
    pin: u8,
    func_sel: u8,
    pull_up: bool,
    pull_down: bool,
    input_enable: bool,
) -> PinSetup {
    PinSetup {
        pin,
        cfg_register: pin / 2,
        func_sel,
        input_enable,
        pull_up,
        pull_down,
        drive: 0,
        schmitt: false,
        output_enable: !input_enable,
    }
}

/// Bits of a pin's half of its configuration register that a mode change
/// writes: the fields of [`PinSetup`], and none of the reserved bits.
pub const PIN_FIELDS_MASK: u16 = 0x0f3f;

impl PinSetup {
    /// The fields as they lie in the pin's half of its configuration
    /// register: input enable in bit 0, Schmitt trigger in bit 1, drive in
    /// bits 2 and 3, pull-up in bit 4, pull-down in bit 5, function in bits
    /// 8 to 11. Drive and function are cut to the width of their fields.
    pub open spec fn field_image(self) -> int {
        (if self.input_enable {
            1int
        } else {
            0
        }) + (if self.schmitt {
            2int
        } else {
            0
        }) + (self.drive % 4) * 4 + (if self.pull_up {
            16int
        } else {
            0
        }) + (if self.pull_down {
            32int
        } else {
            0
        }) + (self.func_sel % 16) * 256
    }

    /// Whether the pin's fields lie in the upper half of its register: two
    /// pins share a register, the odd one above.
    pub fn upper_half(&self) -> (upper: bool)
        ensures
            upper == (self.pin % 2 == 1),
    {
        self.pin % 2 == 1
    }

    /// The fields as they lie in the pin's half of its configuration
    /// register.
    pub fn fields(&self) -> (image: u16)
        ensures
            image == self.field_image(),
    {
        let ie: u16 = if self.input_enable { 1 } else { 0 };
        let smt: u16 = if self.schmitt { 2 } else { 0 };
        let pu: u16 = if self.pull_up { 16 } else { 0 };
        let pd: u16 = if self.pull_down { 32 } else { 0 };
        ie + smt + (self.drive % 4) as u16 * 4 + pu + pd + (self.func_sel % 16) as u16 * 256
    }
}

/// The write that switches the Schmitt trigger of an input pin.
#[derive(Clone, Copy, Debug, PartialEq, Eq, Structural)]
pub struct SchmittSelect {
    /// Number of the pin.
    pub pin: u8,
    /// Index of the configuration register that holds the pin's fields.
    pub cfg_register: u8,
    /// Whether the trigger is on.
    pub enabled: bool,
}

/// The part a pin plays on the SPI bus.
#[derive(Clone, Copy, Debug, PartialEq, Eq, Structural)]
pub enum SpiRole {
    Miso,
    Mosi,
    Ss,
    Sclk,
}

/// The part a pin plays on the I2C bus.
#[derive(Clone, Copy, Debug, PartialEq, Eq, Structural)]
pub enum I2cRole {
    Scl,
    Sda,
}

/// The internal UART signal that pin `pin` carries in UART mode.
pub open spec fn uart_signal_of(pin: u8) -> u8 {
    pin % 8
}

/// The part that pin `pin` plays in SPI mode.
pub open spec fn spi_role_of(pin: u8) -> SpiRole {
    if pin % 4 == 0 {
        SpiRole::Miso
    } else if pin % 4 == 1 {
        SpiRole::Mosi
    } else if pin % 4 == 2 {
        SpiRole::Ss
    } else {
        SpiRole::Sclk
    }
}

/// The part that pin `pin` plays in I2C mode.
pub open spec fn i2c_role_of(pin: u8) -> I2cRole {
    if pin % 2 == 0 {
        I2cRole::Scl
    } else {
        I2cRole::Sda
    }
}

/// GPIO pin number `N` in the mode `MODE`.
pub struct Pin<const N: u8, MODE> {
    _mode: PhantomData<MODE>,
}

impl<const N: u8, MODE> Pin<N, MODE> {
    /// Number of the pin.
    pub fn number(&self) -> (number: u8)
        ensures
            number == N,
    {
        N
    }

    /// The internal UART signal that the pin carries in UART mode.
    pub fn uart_signal(&self) -> (signal: u8)
        ensures
            signal == uart_signal_of(N),
            signal < UART_SIGNAL_COUNT,
    {
        N % 8
    }

    /// The part that the pin plays in SPI mode.
    pub fn spi_role(&self) -> (role: SpiRole)
        ensures
            role == spi_role_of(N),
    {
        match N % 4 {
            0 => SpiRole::Miso,
            1 => SpiRole::Mosi,
            2 => SpiRole::Ss,
            _ => SpiRole::Sclk,
        }
    }

    /// The part that the pin plays in I2C mode.
    pub fn i2c_role(&self) -> (role: I2cRole)
        ensures
            role == i2c_role_of(N),
    {
        if N % 2 == 0 {
            I2cRole::Scl
        } else {
            I2cRole::Sda
        }
    }

    fn into_pin_with_mode<T>(self, mode: u8, pu: bool, pd: bool, ie: bool) -> (out: (
        Pin<N, T>,
        PinSetup,
    ))
        ensures
            out.1 == pin_setup(N, mode, pu, pd, ie),
    {
        (
            Pin { _mode: PhantomData },
            PinSetup {
                pin: N,
                cfg_register: N / 2,
                func_sel: mode,
                input_enable: ie,
                pull_up: pu,
                pull_down: pd,
                drive: 0,
                schmitt: false,
                output_enable: !ie,
            },
        )
    }

    /// Configures the pin to operate as a Hi-Z floating output pin.
    pub fn into_floating_output(self) -> (out: (Pin<N, Output<Floating>>, PinSetup))
        ensures
            out.1 == pin_setup(N, FUNC_SWGPIO, false, false, false),
    {
        self.into_pin_with_mode(FUNC_SWGPIO, false, false, false)
    }

    /// Configures the pin to operate as a pull-up output pin.
    pub fn into_pull_up_output(self) -> (out: (Pin<N, Output<PullUp>>, PinSetup))
        ensures
            out.1 == pin_setup(N, FUNC_SWGPIO, true, false, false),
    {
        self.into_pin_with_mode(FUNC_SWGPIO, true, false, false)
    }

    /// Configures the pin to operate as a pull-down output pin.
    pub fn into_pull_down_output(self) -> (out: (Pin<N, Output<PullDown>>, PinSetup))
        ensures
            out.1 == pin_setup(N, FUNC_SWGPIO, false, true, false),
    {
        self.into_pin_with_mode(FUNC_SWGPIO, false, true, false)
    }

    /// Configures the pin to operate as a Hi-Z floating input pin.
    pub fn into_floating_input(self) -> (out: (Pin<N, Input<Floating>>, PinSetup))
        ensures
            out.1 == pin_setup(N, FUNC_SWGPIO, false, false, true),
    {
        self.into_pin_with_mode(FUNC_SWGPIO, false, false, true)
    }

    /// Configures the pin to operate as a pull-up input pin.
    pub fn into_pull_up_input(self) -> (out: (Pin<N, Input<PullUp>>, PinSetup))
        ensures
            out.1 == pin_setup(N, FUNC_SWGPIO, true, false, true),
    {
        self.into_pin_with_mode(FUNC_SWGPIO, true, false, true)
    }

    /// Configures the pin to operate as a pull-down input pin.
    pub fn into_pull_down_input(self) -> (out: (Pin<N, Input<PullDown>>, PinSetup))
        ensures
            out.1 == pin_setup(N, FUNC_SWGPIO, false, true, true),
    {
        self.into_pin_with_mode(FUNC_SWGPIO, false, true, true)
    }

    /// Configures the pin to UART alternate mode.
    pub fn into_uart(self) -> (out: (Pin<N, Uart>, PinSetup))
        ensures
            out.1 == pin_setup(N, FUNC_UART, true, false, true),
    {
        self.into_pin_with_mode(FUNC_UART, true, false, true)
    }

    /// Configures the pin to SPI alternate mode.
    pub fn into_spi(self) -> (out: (Pin<N, Spi>, PinSetup))
        ensures
            out.1 == pin_setup(N, FUNC_SPI, true, false, true),
    {
        self.into_pin_with_mode(FUNC_SPI, true, false, true)
    }

    /// Configures the pin to I2C alternate mode.
    pub fn into_i2c(self) -> (out: (Pin<N, I2c>, PinSetup))
        ensures
            out.1 == pin_setup(N, FUNC_I2C, true, false, true),
    {
        self.into_pin_with_mode(FUNC_I2C, true, false, true)
    }
}

impl<const N: u8, MODE> Pin<N, Input<MODE>> {
    /// The write that enables the Schmitt trigger of the input.
    pub fn enable_smitter(&mut self) -> (write: SchmittSelect)
        ensures
            write == (SchmittSelect { pin: N, cfg_register: N / 2, enabled: true }),
    {
        SchmittSelect { pin: N, cfg_register: N / 2, enabled: true }
    }

    /// The write that disables the Schmitt trigger of the input.
    pub fn disable_smitter(&mut self) -> (write: SchmittSelect)
        ensures
            write == (SchmittSelect { pin: N, cfg_register: N / 2, enabled: false }),
    {
        SchmittSelect { pin: N, cfg_register: N / 2, enabled: false }
    }
}

impl UartPin<UartSig<0>> for Pin<0, Uart> {

}

impl UartPin<UartSig<1>> for Pin<1, Uart> {

}

impl UartPin<UartSig<2>> for Pin<2, Uart> {

}

impl UartPin<UartSig<3>> for Pin<3, Uart> {

}

impl UartPin<UartSig<4>> for Pin<4, Uart> {

}

impl UartPin<UartSig<5>> for Pin<5, Uart> {

}

impl UartPin<UartSig<6>> for Pin<6, Uart> {

}

impl UartPin<UartSig<7>> for Pin<7, Uart> {

}

impl UartPin<UartSig<0>> for Pin<8, Uart> {

}

impl UartPin<UartSig<1>> for Pin<9, Uart> {

}

impl UartPin<UartSig<2>> for Pin<10, Uart> {

}

impl UartPin<UartSig<3>> for Pin<11, Uart> {

}

impl UartPin<UartSig<4>> for Pin<12, Uart> {

}

impl UartPin<UartSig<5>> for Pin<13, Uart> {

}

impl UartPin<UartSig<6>> for Pin<14, Uart> {

}

impl UartPin<UartSig<7>> for Pin<15, Uart> {

}

impl UartPin<UartSig<0>> for Pin<16, Uart> {

}

impl UartPin<UartSig<1>> for Pin<17, Uart> {

}

impl UartPin<UartSig<2>> for Pin<18, Uart> {

}

impl UartPin<UartSig<3>> for Pin<19, Uart> {

}

impl UartPin<UartSig<4>> for Pin<20, Uart> {

}

impl UartPin<UartSig<5>> for Pin<21, Uart> {

}

impl UartPin<UartSig<6>> for Pin<22, Uart> {

}

/// GPIO parts: every pin, every UART multiplexer and the clock token.
pub struct Parts {
    pub pin0: Pin<0, Input<Floating>>,
    pub pin1: Pin<1, Input<Floating>>,
    pub pin2: Pin<2, Input<Floating>>,
    pub pin3: Pin<3, Input<Floating>>,
    pub pin4: Pin<4, Input<Floating>>,
    pub pin5: Pin<5, Input<Floating>>,
    pub pin6: Pin<6, Input<Floating>>,
    pub pin7: Pin<7, Input<Floating>>,
    pub pin8: Pin<8, Input<Floating>>,
    pub pin9: Pin<9, Input<Floating>>,
    pub pin10: Pin<10, Input<Floating>>,
    pub pin11: Pin<11, Input<Floating>>,
    pub pin12: Pin<12, Input<Floating>>,
    pub pin13: Pin<13, Input<Floating>>,
    pub pin14: Pin<14, Input<Floating>>,
    pub pin15: Pin<15, Input<Floating>>,
    pub pin16: Pin<16, Input<Floating>>,
    pub pin17: Pin<17, Input<Floating>>,
    pub pin18: Pin<18, Input<Floating>>,
    pub pin19: Pin<19, Input<Floating>>,
    pub pin20: Pin<20, Input<Floating>>,
    pub pin21: Pin<21, Input<Floating>>,
    pub pin22: Pin<22, Input<Floating>>,
    pub uart_mux0: UartMux<0, Uart0Cts>,
    pub uart_mux1: UartMux<1, Uart0Cts>,
    pub uart_mux2: UartMux<2, Uart0Cts>,
    pub uart_mux3: UartMux<3, Uart0Cts>,
    pub uart_mux4: UartMux<4, Uart0Cts>,
    pub uart_mux5: UartMux<5, Uart0Cts>,
    pub uart_mux6: UartMux<6, Uart0Cts>,
    pub uart_mux7: UartMux<7, Uart0Cts>,
    pub clk_cfg: ClkCfg,
}

/// Extension trait to split the GLB peripheral into independent pins,
/// registers and other modules.
pub trait GlbExt {
    /// Splits the register block into independent pins and modules.
    fn split(self) -> Parts;
}

impl Parts {
    /// One value per pin, per UART multiplexer and for the clock registers:
    /// every pin a floating input, every multiplexer on UART0 CTS, as after
    /// reset. Meant to be called once per boot; [`GlbExt::split`] does so
    /// for the register block of the peripheral access crate.
    pub fn new() -> (parts: Parts) {
        Parts {
            pin0: Pin { _mode: PhantomData },
            pin1: Pin { _mode: PhantomData },
            pin2: Pin { _mode: PhantomData },
            pin3: Pin { _mode: PhantomData },
            pin4: Pin { _mode: PhantomData },
            pin5: Pin { _mode: PhantomData },
            pin6: Pin { _mode: PhantomData },
            pin7: Pin { _mode: PhantomData },
            pin8: Pin { _mode: PhantomData },
            pin9: Pin { _mode: PhantomData },
            pin10: Pin { _mode: PhantomData },
            pin11: Pin { _mode: PhantomData },
            pin12: Pin { _mode: PhantomData },
            pin13: Pin { _mode: PhantomData },
            pin14: Pin { _mode: PhantomData },
            pin15: Pin { _mode: PhantomData },
            pin16: Pin { _mode: PhantomData },
            pin17: Pin { _mode: PhantomData },
            pin18: Pin { _mode: PhantomData },
            pin19: Pin { _mode: PhantomData },
            pin20: Pin { _mode: PhantomData },
            pin21: Pin { _mode: PhantomData },
            pin22: Pin { _mode: PhantomData },
            uart_mux0: UartMux { _mode: PhantomData },
            uart_mux1: UartMux { _mode: PhantomData },
            uart_mux2: UartMux { _mode: PhantomData },
            uart_mux3: UartMux { _mode: PhantomData },
            uart_mux4: UartMux { _mode: PhantomData },
            uart_mux5: UartMux { _mode: PhantomData },
            uart_mux6: UartMux { _mode: PhantomData },
            uart_mux7: UartMux { _mode: PhantomData },
            clk_cfg: ClkCfg { _ownership: () },
        }
    }
}

impl GlbExt for bl602_pac::GLB {
    /// Uses up the register block and hands out the parts. Nothing is
    /// written.
    fn split(self) -> Parts {
        Parts::new()
    }
}

} // verus!
