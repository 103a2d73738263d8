//! SoC clock configuration.
//!
//! The system clock runs from the internal 32 MHz RC oscillator or from the
//! PLL, which an external crystal drives. The UART clock and the SPI clock
//! are divided down from it by whole numbers. A [`Strict`] configurator
//! accepts a set of target frequencies only when each of them can be reached
//! exactly; it then hands out the sequence of register operations that
//! programs them, step by step.

use vstd::prelude::*;

pub mod agreement;
pub mod ops;
pub mod registers;
pub mod sequence;

verus! {

/// Frequency of the internal high-speed RC oscillator, in Hz.
pub const RC32M: u32 = 32_000_000;

/// Frequency of the PLL tap that feeds the UART when the PLL runs, in Hz.
pub const UART_PLL_FREQ: u32 = 160_000_000;

/// Largest divisor that the UART clock divider can hold.
pub const UART_DIV_MAX: u32 = 7;

/// Largest divisor that the SPI clock divider can hold.
pub const SPI_DIV_MAX: u32 = 32;

/// SPI clock that is aimed at when none was asked for, in Hz. The divider is
/// then set to the bus clock over this frequency, rounded down, and the SPI
/// clock is what that divider gives.
pub const SPI_DEFAULT_FREQ: u32 = 32_000_000;

/// System clock frequencies that can be selected.
#[derive(Clone, Copy, Debug, PartialEq, Eq, Structural)]
pub enum SysclkFreq {
    Rc32Mhz,
    Pll48Mhz,
    Pll120Mhz,
    Pll160Mhz,
}

impl SysclkFreq {
    /// The frequency in Hz.
    pub open spec fn hz(self) -> u32 {
        match self {
            SysclkFreq::Rc32Mhz => 32_000_000,
            SysclkFreq::Pll48Mhz => 48_000_000,
            SysclkFreq::Pll120Mhz => 120_000_000,
            SysclkFreq::Pll160Mhz => 160_000_000,
        }
    }

    /// The PLL tap that delivers this frequency; the RC oscillator has none.
    pub open spec fn tap(self) -> Option<u8> {
        match self {
            SysclkFreq::Rc32Mhz => None,
            SysclkFreq::Pll48Mhz => Some(0u8),
            SysclkFreq::Pll120Mhz => Some(1u8),
            SysclkFreq::Pll160Mhz => Some(2u8),
        }
    }

    /// The frequency in Hz.
    pub fn hertz(&self) -> (hz: u32)
        ensures
            hz == self.hz(),
    {
        match self {
            SysclkFreq::Rc32Mhz => 32_000_000,
            SysclkFreq::Pll48Mhz => 48_000_000,
            SysclkFreq::Pll120Mhz => 120_000_000,
            SysclkFreq::Pll160Mhz => 160_000_000,
        }
    }

    /// The PLL tap that delivers this frequency, `None` for the RC oscillator.
    pub fn pll_tap(&self) -> (tap: Option<u8>)
        ensures
            tap == self.tap(),
    {
        match self {
            SysclkFreq::Rc32Mhz => None,
            SysclkFreq::Pll48Mhz => Some(0),
            SysclkFreq::Pll120Mhz => Some(1),
            SysclkFreq::Pll160Mhz => Some(2),
        }
    }
}

/// What a frozen clock configuration holds.
pub struct ClocksView {
    pub sysclk: u32,
    pub uart_clk: u32,
    pub spi_clk: u32,
    pub xtal_freq: Option<u32>,
    pub pll_enable: bool,
}

/// Frozen clock frequencies.
///
/// A value of this type says that the clock configuration can no longer be
/// changed: it has no method that alters it, and every read of an accessor
/// returns what the value was made with.
#[derive(Clone, Copy, Debug)]
pub struct Clocks {
    sysclk: u32,
    uart_clk: u32,
    spi_clk: u32,
    xtal_freq: Option<u32>,
    pll_enable: bool,
}

impl View for Clocks {
    type V = ClocksView;

    closed spec fn view(&self) -> ClocksView {
        ClocksView {
            sysclk: self.sysclk,
            uart_clk: self.uart_clk,
            spi_clk: self.spi_clk,
            xtal_freq: self.xtal_freq,
            pll_enable: self.pll_enable,
        }
    }
}

/// The clocks as they run after reset: everything on the RC oscillator.
pub open spec fn reset_clocks() -> ClocksView {
    ClocksView {
        sysclk: RC32M,
        uart_clk: RC32M,
        spi_clk: RC32M,
        xtal_freq: None,
        pll_enable: false,
    }
}

impl Clocks {
    /// The clocks as they run after reset.
    pub fn new() -> (clocks: Self)
        ensures
            clocks@ == reset_clocks(),
    {
        Clocks { sysclk: RC32M, uart_clk: RC32M, spi_clk: RC32M, xtal_freq: None, pll_enable: false }
    }

    /// System clock frequency in Hz.
    pub fn sysclk(&self) -> (hz: u32)
        ensures
            hz == self@.sysclk,
    {
        self.sysclk
    }

    /// Whether the PLL drives the system clock.
    pub fn pll_enable(&self) -> (enabled: bool)
        ensures
            enabled == self@.pll_enable,
    {
        self.pll_enable
    }

    /// UART clock frequency in Hz.
    pub fn uart_clk(&self) -> (hz: u32)
        ensures
            hz == self@.uart_clk,
    {
        self.uart_clk
    }

    /// SPI clock frequency in Hz.
    pub fn spi_clk(&self) -> (hz: u32)
        ensures
            hz == self@.spi_clk,
    {
        self.spi_clk
    }

    /// Frequency of the external crystal in Hz, `None` when the PLL is unused.
    pub fn xtal_freq(&self) -> (hz: Option<u32>)
        ensures
            hz == self@.xtal_freq,
    {
        self.xtal_freq
    }
}

impl Default for Clocks {
    fn default() -> (clocks: Self)
        ensures
            clocks@ == reset_clocks(),
    {
        Clocks::new()
    }
}

/// Why a set of target frequencies cannot be configured. Each of these is
/// final: there is no partly configured state to fall back to.
#[derive(Clone, Copy, Debug, PartialEq, Eq, Structural)]
pub enum ConfigError {
    /// The system clock asked for does not go with the clock source: a PLL
    /// frequency without a crystal, or the RC frequency with one.
    UnreachableSysclk,
    /// No whole divisor from 1 to 7 turns the UART source clock into the
    /// UART clock asked for.
    UnreachableUartClock,
    /// There are no PLL parameters for a crystal of this frequency.
    UnsupportedCrystal,
    /// No whole divisor from 1 to 32 turns the bus clock into the SPI clock
    /// asked for. A configuration that asks for no SPI clock never fails so.
    UnreachableSpiClock,
}

/// Whether dividing `source` by `divisor` gives exactly `target`, with a
/// divisor from 1 to `max`.
pub open spec fn divides_exactly(source: u32, target: u32, divisor: int, max: u32) -> bool {
    1 <= divisor <= max && divisor * target == source
}

/// The divisor from 1 to `max` that turns `source` into exactly `target`,
/// if there is one.
pub open spec fn exact_divisor_of(source: u32, target: u32, max: u32) -> Option<u32> {
    if target > 0 && divides_exactly(source, target, source as int / target as int, max) {
        Some((source / target) as u32)
    } else {
        None
    }
}

/// Only the quotient can divide exactly: a divisor that turns `source` into
/// `target` is `source / target`.
pub proof fn lemma_exact_divisor_is_quotient(source: u32, target: u32, divisor: int)
    by (nonlinear_arith)
    requires
        target > 0,
        divisor * target == source,
    ensures
        divisor == source as int / target as int,
{
}

/// Finds the divisor for a clock that is derived from `source`. The result
/// is `Some(d)` exactly when `d`, from 1 to `max`, gives `target` with no
/// remainder; it is `None` when no divisor in that range does.
pub fn exact_divisor(source: u32, target: u32, max: u32) -> (divisor: Option<u32>)
    requires
        target > 0,
    ensures
        divisor == exact_divisor_of(source, target, max),
        divisor matches Some(d) ==> divides_exactly(source, target, d as int, max),
        divisor is None ==> forall|d: int| !divides_exactly(source, target, d, max),
{
    let ans = source / target;
    proof {
        assert forall|d: int| divides_exactly(source, target, d, max) implies d == ans by {
            lemma_exact_divisor_is_quotient(source, target, d);
        }
    }
    if ans < 1 || ans > max {
        return None;
    }
    proof {
        crate::delay::lemma_product_fits(ans, target);
    }
    let product = ans as u64 * target as u64;
    if product != source as u64 {
        return None;
    }
    Some(ans)
}

/// Frequency of the root clock that the selector fields stand for: the RC
/// oscillator, the crystal, or one of the PLL taps.
pub open spec fn root_clock_of(root_clk_sel: u8, pll_clk_sel: u8) -> u32 {
    if root_clk_sel == 0 {
        32_000_000
    } else if root_clk_sel == 1 {
        40_000_000
    } else if pll_clk_sel == 0 {
        48_000_000
    } else if pll_clk_sel == 1 {
        120_000_000
    } else if pll_clk_sel == 2 {
        160_000_000
    } else {
        192_000_000
    }
}

/// Bus clock that results from a root clock and the two divider fields, each
/// of which divides by its value plus one.
pub open spec fn bus_clock_of(root: u32, hclk_div: u8, bclk_div: u8) -> u32 {
    (root as int / (hclk_div + 1) / (bclk_div + 1)) as u32
}

/// Computes the bus clock rate in Hz from the values of the root clock
/// selector, the PLL tap selector and the two divider fields.
pub fn calculate_bus_clock(root_clk_sel: u8, pll_clk_sel: u8, hclk_div: u8, bclk_div: u8) -> (hz:
    u32)
    ensures
        hz == bus_clock_of(root_clock_of(root_clk_sel, pll_clk_sel), hclk_div, bclk_div),
{
    let root: u32 = match root_clk_sel {
        0 => 32_000_000,
        1 => 40_000_000,
        _ => match pll_clk_sel {
            0 => 48_000_000,
            1 => 120_000_000,
            2 => 160_000_000,
            _ => 192_000_000,
        },
    };
    root / (hclk_div as u32 + 1) / (bclk_div as u32 + 1)
}

/// The bus divider field that keeps the bus clock at or under 80 MHz for a
/// system clock of `sysclk`.
pub open spec fn bclk_div_for(sysclk: SysclkFreq) -> u8 {
    if sysclk.hz() > 48_000_000 {
        1
    } else {
        0
    }
}

/// Bus clock in Hz that goes with a system clock of `sysclk`: the system
/// clock itself up to 48 MHz, half of it above.
pub open spec fn bus_clock_at(sysclk: SysclkFreq) -> u32 {
    match sysclk {
        SysclkFreq::Rc32Mhz => 32_000_000,
        SysclkFreq::Pll48Mhz => 48_000_000,
        SysclkFreq::Pll120Mhz => 60_000_000,
        SysclkFreq::Pll160Mhz => 80_000_000,
    }
}

/// The bus clock that goes with a system clock is what the divider fields
/// programmed for it give, and it stays at or under 80 MHz.
pub proof fn lemma_bus_clock_follows_dividers(sysclk: SysclkFreq)
    ensures
        bus_clock_at(sysclk) == bus_clock_of(sysclk.hz(), 0, bclk_div_for(sysclk)),
        bus_clock_at(sysclk) <= 80_000_000,
{
    assert(32_000_000int / 1 / 1 == 32_000_000);
    assert(48_000_000int / 1 / 1 == 48_000_000);
    assert(120_000_000int / 1 / 2 == 60_000_000);
    assert(160_000_000int / 1 / 2 == 80_000_000);
}

/// Whether the instruction ROM needs a second access cycle at `sysclk`.
pub open spec fn rom_needs_wait_state(sysclk: SysclkFreq) -> bool {
    sysclk.hz() > 120_000_000
}

/// Parameters of the PLL for one crystal frequency.
#[derive(Clone, Copy, Debug, PartialEq, Eq, Structural)]
pub struct PllParams {
    /// Index by which the boot ROM knows the crystal.
    pub xtal_source: u8,
    /// Charge pump current, 1 uA steps.
    pub icp_1u: u8,
    /// Charge pump current, 5 uA steps.
    pub icp_5u: u8,
    /// Fractional mode of the divider.
    pub int_frac_sw: bool,
    /// Loop filter capacitor C3.
    pub c3: u8,
    /// Loop filter capacitor Cz.
    pub cz: u8,
    /// Loop filter resistor Rz.
    pub rz: u8,
    /// Short of loop filter resistor R4.
    pub r4_short: bool,
    /// Post divider.
    pub postdiv: u8,
    /// Reference divider ratio.
    pub refdiv_ratio: u8,
    /// Input of the sigma-delta modulator: the feedback ratio.
    pub sdmin: u32,
    /// Feedback clock selection.
    pub sel_fb_clk: u8,
    /// Sample clock selection.
    pub sel_sample_clk: u8,
}

/// Whether there are PLL parameters for a crystal of `freq` Hz.
pub open spec fn crystal_supported(freq: u32) -> bool {
    freq == 24_000_000 || freq == 26_000_000 || freq == 32_000_000 || freq == 38_400_000 || freq
        == 40_000_000
}

/// The PLL parameters for a crystal of `freq` Hz.
pub open spec fn pll_params_of(freq: u32) -> PllParams {
    PllParams {
        xtal_source: if freq == 24_000_000 {
            1
        } else if freq == 32_000_000 {
            2
        } else if freq == 38_400_000 {
            3
        } else if freq == 40_000_000 {
            4
        } else {
            5
        },
        icp_1u: if freq == 26_000_000 {
            1
        } else {
            0
        },
        icp_5u: if freq == 26_000_000 {
            0
        } else {
            2
        },
        int_frac_sw: freq == 26_000_000,
        c3: if freq == 26_000_000 {
            2
        } else {
            3
        },
        cz: if freq == 26_000_000 {
            2
        } else {
            1
        },
        rz: if freq == 26_000_000 {
            5
        } else {
            1
        },
        r4_short: freq != 26_000_000,
        postdiv: 0x14,
        refdiv_ratio: 2,
        sdmin: if freq == 24_000_000 {
            0x50_0000
        } else if freq == 32_000_000 {
            0x3C_0000
        } else if freq == 38_400_000 {
            0x32_0000
        } else if freq == 40_000_000 {
            0x30_0000
        } else {
            0x49_D39D
        },
        sel_fb_clk: 1,
        sel_sample_clk: 1,
    }
}

/// Looks up the PLL parameters for a crystal of `freq` Hz. There are
/// parameters for 24, 26, 32, 38.4 and 40 MHz, and for no other frequency.
pub fn pll_params(freq: u32) -> (params: Option<PllParams>)
    ensures
        params is Some <==> crystal_supported(freq),
        params matches Some(p) ==> p == pll_params_of(freq),
{
    let (xtal_source, sdmin): (u8, u32) = match freq {
        24_000_000 => (1, 0x50_0000),
        32_000_000 => (2, 0x3C_0000),
        38_400_000 => (3, 0x32_0000),
        40_000_000 => (4, 0x30_0000),
        26_000_000 => (5, 0x49_D39D),
        _ => { return None; },
    };
    let low = freq == 26_000_000;
    Some(
        PllParams {
            xtal_source,
            icp_1u: if low { 1 } else { 0 },
            icp_5u: if low { 0 } else { 2 },
            int_frac_sw: low,
            c3: if low { 2 } else { 3 },
            cz: if low { 2 } else { 1 },
            rz: if low { 5 } else { 1 },
            r4_short: !low,
            postdiv: 0x14,
            refdiv_ratio: 2,
            sdmin,
            sel_fb_clk: 1,
            sel_sample_clk: 1,
        },
    )
}

/// What a configurator has been asked for.
pub struct StrictView {
    /// SPI clock asked for, in Hz; never `Some(0)`.
    pub target_spi_clk: Option<u32>,
    /// UART clock asked for, in Hz; never `Some(0)`.
    pub target_uart_clk: Option<u32>,
    /// Frequency of the crystal that drives the PLL, in Hz.
    pub pll_xtal_freq: Option<u32>,
    /// System clock asked for.
    pub sysclk: SysclkFreq,
}

/// A configuration that has been checked: the frequencies that will run and
/// the divisors that give them.
#[derive(Clone, Copy, Debug, PartialEq, Eq, Structural)]
pub struct ClockPlan {
    /// System clock.
    pub sysclk: SysclkFreq,
    /// Crystal frequency in Hz when the PLL is used, `None` when it is not.
    pub xtal_freq: Option<u32>,
    /// Clock that the UART divider divides, in Hz.
    pub uart_src: u32,
    /// UART clock in Hz.
    pub uart_clk: u32,
    /// Divisor from `uart_src` to `uart_clk`.
    pub uart_div: u8,
    /// Bus clock, which the SPI divider divides, in Hz.
    pub bus_clk: u32,
    /// SPI clock in Hz.
    pub spi_clk: u32,
    /// Divisor from `bus_clk` to `spi_clk`.
    pub spi_div: u8,
}

impl ClockPlan {
    /// Whether the plan runs the system clock from the PLL.
    pub open spec fn uses_pll(self) -> bool {
        self.xtal_freq is Some
    }

    /// The frozen clocks that the plan ends in.
    pub open spec fn clocks(self) -> ClocksView {
        ClocksView {
            sysclk: self.sysclk.hz(),
            uart_clk: self.uart_clk,
            spi_clk: self.spi_clk,
            xtal_freq: self.xtal_freq,
            pll_enable: self.uses_pll(),
        }
    }

    /// What holds of every plan that a configurator hands out: the source
    /// clocks are those of the chosen system clock, both divisors are exact
    /// and fit their register fields, and a PLL plan has a supported crystal.
    pub open spec fn consistent(self) -> bool {
        &&& self.uses_pll() <==> self.sysclk != SysclkFreq::Rc32Mhz
        &&& self.xtal_freq matches Some(f) ==> crystal_supported(f)
        &&& self.uart_src == if self.uses_pll() {
            UART_PLL_FREQ
        } else {
            RC32M
        }
        &&& self.bus_clk == bus_clock_at(self.sysclk)
        &&& divides_exactly(self.uart_src, self.uart_clk, self.uart_div as int, UART_DIV_MAX)
        &&& divides_exactly(self.bus_clk, self.spi_clk, self.spi_div as int, SPI_DIV_MAX)
    }

    /// Builds the frozen clock description of this plan.
    pub fn to_clocks(&self) -> (clocks: Clocks)
        ensures
            clocks@ == self.clocks(),
    {
        Clocks {
            sysclk: self.sysclk.hertz(),
            uart_clk: self.uart_clk,
            spi_clk: self.spi_clk,
            xtal_freq: self.xtal_freq,
            pll_enable: self.xtal_freq.is_some(),
        }
    }
}

/// Whether the configuration `v` asks for the PLL: a crystal frequency other
/// than 0 was given.
pub open spec fn wants_pll(v: StrictView) -> bool {
    v.pll_xtal_freq matches Some(f) && f != 0
}

/// Clock that feeds the UART divider under `v`.
pub open spec fn uart_source(v: StrictView) -> u32 {
    if wants_pll(v) {
        UART_PLL_FREQ
    } else {
        v.sysclk.hz()
    }
}

/// UART clock aimed at under `v`: the one asked for, else the source itself.
pub open spec fn uart_target(v: StrictView) -> u32 {
    match v.target_uart_clk {
        Some(f) => f,
        None => uart_source(v),
    }
}

/// Bus clock that results under `v`.
pub open spec fn bus_clock(v: StrictView) -> u32 {
    bus_clock_at(v.sysclk)
}

/// Divisor of the SPI clock where none was asked for, at a system clock of
/// `sysclk`: the bus clock over 32 MHz, rounded down.
pub open spec fn default_spi_divisor(sysclk: SysclkFreq) -> u32 {
    match sysclk {
        SysclkFreq::Pll160Mhz => 2,
        _ => 1,
    }
}

/// SPI clock in Hz where none was asked for, at a system clock of `sysclk`:
/// the bus clock over the divisor above, which is the clock that then runs.
pub open spec fn default_spi_clock(sysclk: SysclkFreq) -> u32 {
    match sysclk {
        SysclkFreq::Rc32Mhz => 32_000_000,
        SysclkFreq::Pll48Mhz => 48_000_000,
        SysclkFreq::Pll120Mhz => 60_000_000,
        SysclkFreq::Pll160Mhz => 40_000_000,
    }
}

/// The divisor and the clock where no SPI clock was asked for are the bus
/// clock over 32 MHz, rounded down, and the bus clock over that divisor; the
/// divisor fits its register and divides exactly.
pub proof fn lemma_default_spi_clock(sysclk: SysclkFreq)
    ensures
        default_spi_divisor(sysclk) == bus_clock_at(sysclk) as int / SPI_DEFAULT_FREQ as int,
        default_spi_clock(sysclk) == bus_clock_at(sysclk) as int / default_spi_divisor(
            sysclk,
        ) as int,
        divides_exactly(
            bus_clock_at(sysclk),
            default_spi_clock(sysclk),
            default_spi_divisor(sysclk) as int,
            SPI_DIV_MAX,
        ),
{
    assert(32_000_000int / 32_000_000 == 1 && 32_000_000int / 1 == 32_000_000);
    assert(48_000_000int / 32_000_000 == 1 && 48_000_000int / 1 == 48_000_000);
    assert(60_000_000int / 32_000_000 == 1 && 60_000_000int / 1 == 60_000_000);
    assert(80_000_000int / 32_000_000 == 2 && 80_000_000int / 2 == 40_000_000);
}

/// Divisor of the SPI clock under `v`: the exact divisor of the clock asked
/// for, if it has one; where no clock was asked for, the default.
pub open spec fn spi_divisor(v: StrictView) -> Option<u32> {
    match v.target_spi_clk {
        Some(f) => exact_divisor_of(bus_clock(v), f, SPI_DIV_MAX),
        None => Some(default_spi_divisor(v.sysclk)),
    }
}

/// SPI clock under `v`: the one asked for, else the one that the default
/// divisor gives.
pub open spec fn spi_clock(v: StrictView) -> u32 {
    match v.target_spi_clk {
        Some(f) => f,
        None => default_spi_clock(v.sysclk),
    }
}

/// The outcome of checking the configuration `v`: its plan, or the first
/// reason why it cannot be configured.
pub open spec fn resolve(v: StrictView) -> Result<ClockPlan, ConfigError> {
    if wants_pll(v) != (v.sysclk != SysclkFreq::Rc32Mhz) {
        Err(ConfigError::UnreachableSysclk)
    } else if exact_divisor_of(uart_source(v), uart_target(v), UART_DIV_MAX) is None {
        Err(ConfigError::UnreachableUartClock)
    } else if wants_pll(v) && !crystal_supported(v.pll_xtal_freq.unwrap()) {
        Err(ConfigError::UnsupportedCrystal)
    } else if spi_divisor(v) is None {
        Err(ConfigError::UnreachableSpiClock)
    } else {
        Ok(
            ClockPlan {
                sysclk: v.sysclk,
                xtal_freq: if wants_pll(v) {
                    v.pll_xtal_freq
                } else {
                    None
                },
                uart_src: uart_source(v),
                uart_clk: uart_target(v),
                uart_div: exact_divisor_of(uart_source(v), uart_target(v), UART_DIV_MAX).unwrap() as u8,
                bus_clk: bus_clock(v),
                spi_clk: spi_clock(v),
                spi_div: spi_divisor(v).unwrap() as u8,
            },
        )
    }
}

/// Strict clock configurator.
///
/// This configurator accepts only values that can be reached exactly. Where
/// a target frequency is not a whole fraction of its source clock, within
/// the range of the divider, the configuration is refused; nothing is
/// rounded.
///
/// What is not asked for is not refused. Without a UART target the UART
/// runs at its source clock. Without an SPI target the SPI divider is the
/// bus clock over 32 MHz, rounded down, and the SPI clock is whatever that
/// gives: 32 MHz on the RC oscillator, 48, 60 and 40 MHz at a system clock of
/// 48, 120 and 160 MHz.
///
/// A configurator is used up by what it is handed to: it cannot be copied,
/// and each setter takes it and gives back the next.
#[derive(Debug)]
pub struct Strict {
    target_spi_clk: Option<u32>,
    target_uart_clk: Option<u32>,
    pll_xtal_freq: Option<u32>,
    sysclk: SysclkFreq,
}

impl View for Strict {
    type V = StrictView;

    closed spec fn view(&self) -> StrictView {
        StrictView {
            target_spi_clk: self.target_spi_clk,
            target_uart_clk: self.target_uart_clk,
            pll_xtal_freq: self.pll_xtal_freq,
            sysclk: self.sysclk,
        }
    }
}

/// A target frequency as the configurator keeps it: 0 stands for none.
pub open spec fn target_of(freq: u32) -> Option<u32> {
    if freq == 0 {
        None
    } else {
        Some(freq)
    }
}

impl Strict {
    #[verifier::type_invariant]
    spec fn targets_are_positive(self) -> bool {
        self.target_spi_clk != Some(0u32) && self.target_uart_clk != Some(0u32)
    }

    /// Creates a strict configurator that asks for nothing: the RC
    /// oscillator as system clock, no PLL, no UART or SPI target.
    pub fn new() -> (cfg: Self)
        ensures
            cfg@ == (StrictView {
                target_spi_clk: None,
                target_uart_clk: None,
                pll_xtal_freq: None,
                sysclk: SysclkFreq::Rc32Mhz,
            }),
    {
        Strict {
            target_spi_clk: None,
            target_uart_clk: None,
            pll_xtal_freq: None,
            sysclk: SysclkFreq::Rc32Mhz,
        }
    }

    /// Sets the desired frequency of the SPI clock, in Hz. A frequency of 0
    /// withdraws the target.
    pub fn spi_clk(self, freq: u32) -> (cfg: Self)
        ensures
            cfg@ == (StrictView { target_spi_clk: target_of(freq), ..self@ }),
    {
        let target = if freq == 0 { None } else { Some(freq) };
        Strict {
            target_spi_clk: target,
            target_uart_clk: self.target_uart_clk_checked(),
            pll_xtal_freq: self.pll_xtal_freq,
            sysclk: self.sysclk,
        }
    }

    /// Sets the desired frequency of the UART clock, in Hz. A frequency of 0
    /// withdraws the target.
    pub fn uart_clk(self, freq: u32) -> (cfg: Self)
        ensures
            cfg@ == (StrictView { target_uart_clk: target_of(freq), ..self@ }),
    {
        let target = if freq == 0 { None } else { Some(freq) };
        Strict {
            target_spi_clk: self.target_spi_clk_checked(),
            target_uart_clk: target,
            pll_xtal_freq: self.pll_xtal_freq,
            sysclk: self.sysclk,
        }
    }

    /// Enables the PLL as clock source, driven by an external crystal of
    /// `freq` Hz.
    pub fn use_pll(self, freq: u32) -> (cfg: Self)
        ensures
            cfg@ == (StrictView { pll_xtal_freq: Some(freq), ..self@ }),
    {
        Strict {
            target_spi_clk: self.target_spi_clk_checked(),
            target_uart_clk: self.target_uart_clk_checked(),
            pll_xtal_freq: Some(freq),
            sysclk: self.sysclk,
        }
    }

    /// Sets the system clock frequency.
    pub fn sys_clk(self, freq: SysclkFreq) -> (cfg: Self)
        ensures
            cfg@ == (StrictView { sysclk: freq, ..self@ }),
    {
        Strict {
            target_spi_clk: self.target_spi_clk_checked(),
            target_uart_clk: self.target_uart_clk_checked(),
            pll_xtal_freq: self.pll_xtal_freq,
            sysclk: freq,
        }
    }

    fn target_spi_clk_checked(&self) -> (target: Option<u32>)
        ensures
            target == self@.target_spi_clk,
            target != Some(0u32),
    {
        proof {
            use_type_invariant(self);
        }
        self.target_spi_clk
    }

    fn target_uart_clk_checked(&self) -> (target: Option<u32>)
        ensures
            target == self@.target_uart_clk,
            target != Some(0u32),
    {
        proof {
            use_type_invariant(self);
        }
        self.target_uart_clk
    }

    /// Checks the configuration without touching anything. The result is the
    /// plan with its exact divisors, or the reason why the configuration
    /// cannot be reached: a system clock that does not go with the clock
    /// source, a UART clock without an exact divisor from 1 to 7, a crystal
    /// without PLL parameters, an SPI clock that was asked for and has no
    /// exact divisor from 1 to 32; the first of these that applies.
    pub fn check(&self) -> (outcome: Result<ClockPlan, ConfigError>)
        ensures
            outcome == resolve(self@),
            outcome matches Ok(plan) ==> plan.consistent(),
    {
        let spi_target = self.target_spi_clk_checked();
        let uart_target = self.target_uart_clk_checked();
        let pll_xtal_freq = match self.pll_xtal_freq {
            Some(f) => f,
            None => 0,
        };
        let pll_enabled = pll_xtal_freq != 0;
        let rc = match self.sysclk {
            SysclkFreq::Rc32Mhz => true,
            _ => false,
        };
        if pll_enabled == rc {
            return Err(ConfigError::UnreachableSysclk);
        }
        let uart_src = if pll_enabled { UART_PLL_FREQ } else { self.sysclk.hertz() };
        let uart_clk = match uart_target {
            Some(f) => f,
            None => uart_src,
        };
        let uart_div = match exact_divisor(uart_src, uart_clk, UART_DIV_MAX) {
            Some(d) => d,
            None => { return Err(ConfigError::UnreachableUartClock); },
        };
        if pll_enabled && pll_params(pll_xtal_freq).is_none() {
            return Err(ConfigError::UnsupportedCrystal);
        }
        let bclk_div: u8 = if self.sysclk.hertz() > 48_000_000 { 1 } else { 0 };
        let root_sel: u8 = if pll_enabled { 2 } else { 0 };
        let tap = match self.sysclk.pll_tap() {
            Some(t) => t,
            None => 0,
        };
        let bus_clk = calculate_bus_clock(root_sel, tap, 0, bclk_div);
        proof {
            lemma_bus_clock_follows_dividers(self.sysclk);
        }
        proof {
            lemma_default_spi_clock(self.sysclk);
        }
        let (spi_div, spi_clk) = match spi_target {
            Some(f) => match exact_divisor(bus_clk, f, SPI_DIV_MAX) {
                Some(d) => (d, f),
                None => { return Err(ConfigError::UnreachableSpiClock); },
            },
            None => {
                let d = bus_clk / SPI_DEFAULT_FREQ;
                (d, bus_clk / d)
            },
        };
        Ok(
            ClockPlan {
                sysclk: self.sysclk,
                xtal_freq: if pll_enabled { Some(pll_xtal_freq) } else { None },
                uart_src,
                uart_clk,
                uart_div: uart_div as u8,
                bus_clk,
                spi_clk,
                spi_div: spi_div as u8,
            },
        )
    }
}

impl Default for Strict {
    fn default() -> (cfg: Self)
        ensures
            cfg@ == (StrictView {
                target_spi_clk: None,
                target_uart_clk: None,
                pll_xtal_freq: None,
                sysclk: SysclkFreq::Rc32Mhz,
            }),
    {
        Strict::new()
    }
}

/// Every configuration that is accepted has exact divisors: the UART source
/// is the UART divisor times the UART clock, and the bus clock is the SPI
/// divisor times the SPI clock, each divisor within its register's range.
pub proof fn lemma_accepted_divisors_are_exact(v: StrictView)
    requires
        v.target_spi_clk != Some(0u32),
        v.target_uart_clk != Some(0u32),
        resolve(v) is Ok,
    ensures
        ({
            let plan = resolve(v).unwrap();
            &&& plan.uart_src == plan.uart_div * plan.uart_clk
            &&& 1 <= plan.uart_div <= UART_DIV_MAX
            &&& plan.bus_clk == plan.spi_div * plan.spi_clk
            &&& 1 <= plan.spi_div <= SPI_DIV_MAX
            &&& plan.consistent()
        }),
{
    lemma_default_spi_clock(v.sysclk);
}

/// A configuration whose UART clock, or whose SPI clock where one was asked
/// for, has no exact divisor within the register's range is refused: checking
/// it gives an error and no plan.
pub proof fn lemma_inexact_target_is_refused(v: StrictView)
    requires
        v.target_spi_clk != Some(0u32),
        v.target_uart_clk != Some(0u32),
        (forall|d: int| !divides_exactly(uart_source(v), uart_target(v), d, UART_DIV_MAX)) || (
        v.target_spi_clk matches Some(f) && forall|d: int|
            !divides_exactly(bus_clock(v), f, d, SPI_DIV_MAX)),
    ensures
        resolve(v) is Err,
{
}

/// A clock divides exactly, with a divisor from 1 to `max`, only if it
/// leaves no remainder and the quotient lies in that range.
pub proof fn lemma_remainder_rules_out_divisor(source: u32, target: u32, max: u32)
    requires
        target > 0,
        source % target != 0 || source / target == 0 || source / target > max,
    ensures
        exact_divisor_of(source, target, max) is None,
        forall|d: int| !divides_exactly(source, target, d, max),
{
    assert forall|d: int| !divides_exactly(source, target, d, max) by {
        if divides_exactly(source, target, d, max) {
            lemma_exact_divisor_is_quotient(source, target, d);
            assert(source as int % target as int == 0) by (nonlinear_arith)
                requires
                    target > 0,
                    d * target == source,
            ;
        }
    }
}

/// A UART clock that was asked for and that leaves a remainder, or whose
/// quotient is 0 or above 7, is refused. With a system clock that goes with
/// the clock source, the error is that of the UART clock; nothing is planned
/// for the UART, and no engine is made that could write to it.
pub proof fn lemma_unreachable_uart_clock_is_refused(v: StrictView, t: u32)
    requires
        v.target_uart_clk == Some(t),
        t > 0,
        uart_source(v) % t != 0 || uart_source(v) / t == 0 || uart_source(v) / t > UART_DIV_MAX,
    ensures
        resolve(v) is Err,
        wants_pll(v) == (v.sysclk != SysclkFreq::Rc32Mhz) ==> resolve(v) == Err::<
            ClockPlan,
            ConfigError,
        >(ConfigError::UnreachableUartClock),
{
    lemma_remainder_rules_out_divisor(uart_source(v), t, UART_DIV_MAX);
}

/// An SPI clock that was asked for and that leaves a remainder on the bus
/// clock, or whose quotient is 0 or above 32, is refused: checking gives an
/// error and no plan, and no engine is made that could write the SPI divider.
pub proof fn lemma_unreachable_spi_clock_is_refused(v: StrictView, s: u32)
    requires
        v.target_spi_clk == Some(s),
        s > 0,
        bus_clock(v) % s != 0 || bus_clock(v) / s == 0 || bus_clock(v) / s > SPI_DIV_MAX,
    ensures
        resolve(v) is Err,
{
    lemma_remainder_rules_out_divisor(bus_clock(v), s, SPI_DIV_MAX);
}

/// A configuration that asks for no SPI clock is never refused for its SPI
/// clock: if the system clock goes with the clock source, the UART clock has
/// an exact divisor and the crystal is supported, it is accepted, with the
/// default SPI divisor and the clock that this divisor gives.
pub proof fn lemma_unset_spi_clock_is_accepted(v: StrictView)
    requires
        v.target_spi_clk is None,
        resolve(v) != Err::<ClockPlan, ConfigError>(ConfigError::UnreachableSysclk),
        resolve(v) != Err::<ClockPlan, ConfigError>(ConfigError::UnreachableUartClock),
        resolve(v) != Err::<ClockPlan, ConfigError>(ConfigError::UnsupportedCrystal),
    ensures
        resolve(v) is Ok,
        resolve(v).unwrap().spi_div == default_spi_divisor(v.sysclk),
        resolve(v).unwrap().spi_clk == default_spi_clock(v.sysclk),
        resolve(v).unwrap().bus_clk == resolve(v).unwrap().spi_div * resolve(v).unwrap().spi_clk,
{
    lemma_default_spi_clock(v.sysclk);
}

} // verus!
