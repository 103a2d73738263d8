//! The register operations of the clock engine, and the ordered lists of
//! them that make up each phase of the sequence.
//!
//! An operation names one register write or one wait. A list is applied in
//! order, front to back. Neither order nor waits may be changed: a PLL that
//! is reprogrammed while it drives the core, or that is not given its
//! settling times, may not lock.

use vstd::prelude::*;
use crate::clock::{ClockPlan, PllParams, RC32M, SysclkFreq, bclk_div_for, rom_needs_wait_state};
use crate::delay::{McycleDelay, cycles_in};

verus! {

/// One step that the clock engine asks for.
#[derive(Clone, Copy, Debug, PartialEq, Eq, Structural)]
pub enum ClockOp {
    /// Enable the bus, core and root clock gates.
    EnableRootClocks,
    /// Select the internal RC oscillator as root clock: the safe default.
    SelectRootRc32,
    /// Set the core and bus divider fields; each divides by its value plus one.
    SetBusDividers { hclk_div: u8, bclk_div: u8 },
    /// Write the bus clock gate: `true` stops the bus clock, `false` frees it.
    GateBusClock(bool),
    /// Record the core frequency, in Hz, in the register kept for it.
    SetCoreClock(u32),
    /// Busy-wait for `us` microseconds, which are `cycles` cycles of the core
    /// clock in effect.
    Wait { us: u32, cycles: u64 },
    /// Enable the core and bus clocks after a divider change.
    EnableBusClocks,
    /// Select the clock of the public-key engine: the 120 MHz PLL tap for
    /// `true`, the core clock for `false`.
    SelectPkaClock(bool),
    /// Power up the external crystal oscillator and its buffer.
    PowerOnCrystal,
    /// Select the crystal as reference clock of the PLL.
    SelectPllReference,
    /// Power down the PLL's regulator and core.
    PllPowerDownCore,
    /// Power down the PLL's charge pump, phase detector and dividers.
    PllPowerDownStages,
    /// Set the charge pump currents and the divider mode.
    PllChargePump { icp_1u: u8, icp_5u: u8, int_frac_sw: bool },
    /// Set the loop filter.
    PllLoopFilter { c3: u8, cz: u8, rz: u8, r4_short: bool },
    /// Set the post divider and the reference divider ratio.
    PllTopControl { postdiv: u8, refdiv_ratio: u8 },
    /// Set the input of the sigma-delta modulator.
    PllSdm { sdmin: u32 },
    /// Select the feedback and sample clocks.
    PllFeedback { sel_fb_clk: u8, sel_sample_clk: u8 },
    /// Power up the PLL's bias and regulator.
    PllPowerUpRegulator,
    /// Power up the PLL core.
    PllPowerUpCore,
    /// Power up the PLL's charge pump, phase detector and dividers.
    PllPowerUpStages,
    /// Hold (`true`) or release (`false`) the reset of the sigma-delta
    /// modulator.
    PllSdmReset(bool),
    /// Hold (`true`) or release (`false`) the reset of the feedback divider.
    PllFeedbackReset(bool),
    /// Enable every output tap of the PLL.
    EnablePllOutputs,
    /// Set the PLL enable bit of the clock configuration.
    EnablePll,
    /// Select the PLL tap that feeds the system clock.
    SelectPllTap(u8),
    /// Give the instruction ROM a second access cycle.
    SetRomWaitState,
    /// Select the PLL as root clock.
    SelectRootPll,
    /// Select the UART clock source: the PLL for `true`, the core clock for
    /// `false`.
    SelectUartClock(bool),
    /// Enable the UART clock and set its divider field; the clock is divided
    /// by the field plus one.
    SetUartDivider { field: u8 },
    /// Enable the SPI clock and set its divider field; the clock is divided
    /// by the field plus one.
    SetSpiDivider { field: u8 },
}

impl ClockOp {
    /// Whether the operation writes a register of the PLL or selects the PLL
    /// as a clock.
    pub open spec fn touches_pll(self) -> bool {
        match self {
            ClockOp::SelectPllReference => true,
            ClockOp::PllPowerDownCore => true,
            ClockOp::PllPowerDownStages => true,
            ClockOp::PllChargePump { .. } => true,
            ClockOp::PllLoopFilter { .. } => true,
            ClockOp::PllTopControl { .. } => true,
            ClockOp::PllSdm { .. } => true,
            ClockOp::PllFeedback { .. } => true,
            ClockOp::PllPowerUpRegulator => true,
            ClockOp::PllPowerUpCore => true,
            ClockOp::PllPowerUpStages => true,
            ClockOp::PllSdmReset(_) => true,
            ClockOp::PllFeedbackReset(_) => true,
            ClockOp::EnablePllOutputs => true,
            ClockOp::EnablePll => true,
            ClockOp::SelectPllTap(_) => true,
            ClockOp::SelectRootPll => true,
            _ => false,
        }
    }

    /// Whether the operation writes the divider of the UART or SPI clock.
    pub open spec fn sets_secondary_divider(self) -> bool {
        self is SetUartDivider || self is SetSpiDivider
    }
}

/// A wait of `us` microseconds on a core that runs at `core_clock` Hz.
pub open spec fn wait_op(us: u32, core_clock: u32) -> ClockOp {
    ClockOp::Wait { us, cycles: cycles_in(us as int, core_clock as int, 1_000_000) as u64 }
}

/// Core frequency after the core divider field is set to `hclk_div`.
pub open spec fn divided_clock(core_clock: u32, hclk_div: u8) -> u32 {
    (core_clock as int / (hclk_div + 1)) as u32
}

/// Setting the divider fields on a core that runs at `core_clock` Hz: the
/// fields, a pulse on the bus clock gate, the new core frequency, and the
/// clocks enabled again, with a microsecond after each half.
pub open spec fn divider_ops(hclk_div: u8, bclk_div: u8, core_clock: u32) -> Seq<ClockOp> {
    seq![
        ClockOp::SetBusDividers { hclk_div, bclk_div },
        ClockOp::GateBusClock(true),
        ClockOp::GateBusClock(false),
        ClockOp::SetCoreClock(divided_clock(core_clock, hclk_div)),
        wait_op(1, divided_clock(core_clock, hclk_div)),
        ClockOp::EnableBusClocks,
        wait_op(1, divided_clock(core_clock, hclk_div)),
    ]
}

/// Falling back to the RC oscillator from a core that runs at `core_clock`
/// Hz. The oscillator is selected by the second operation, before any
/// divider is touched.
pub open spec fn safe_default_ops(core_clock: u32) -> Seq<ClockOp> {
    seq![ClockOp::EnableRootClocks, ClockOp::SelectRootRc32] + divider_ops(0, 0, core_clock)
        + seq![ClockOp::SetCoreClock(RC32M), ClockOp::SelectPkaClock(false)]
}

/// Microseconds between two looks at the crystal's ready bit.
pub const CRYSTAL_POLL_SPACING_US: u32 = 10;

/// Powering up the crystal, and the wait before the first look at its ready
/// bit.
pub open spec fn crystal_power_ops() -> Seq<ClockOp> {
    seq![ClockOp::PowerOnCrystal, wait_op(CRYSTAL_POLL_SPACING_US, RC32M)]
}

/// Configuring the PLL with `params`: reference selected, PLL powered down,
/// then the parameters.
pub open spec fn pll_config_ops(params: PllParams) -> Seq<ClockOp> {
    seq![
        ClockOp::SelectPllReference,
        ClockOp::PllPowerDownCore,
        ClockOp::PllPowerDownStages,
        ClockOp::PllChargePump {
            icp_1u: params.icp_1u,
            icp_5u: params.icp_5u,
            int_frac_sw: params.int_frac_sw,
        },
        ClockOp::PllLoopFilter {
            c3: params.c3,
            cz: params.cz,
            rz: params.rz,
            r4_short: params.r4_short,
        },
        ClockOp::PllTopControl { postdiv: params.postdiv, refdiv_ratio: params.refdiv_ratio },
        ClockOp::PllSdm { sdmin: params.sdmin },
        ClockOp::PllFeedback {
            sel_fb_clk: params.sel_fb_clk,
            sel_sample_clk: params.sel_sample_clk,
        },
    ]
}

/// The power-up sequence of the PLL: regulator, core, charge pump and
/// dividers, then a reset pulse on the feedback divider inside a reset pulse
/// on the modulator, each step with its settling time.
pub open spec fn pll_power_up_ops() -> Seq<ClockOp> {
    seq![
        ClockOp::PllPowerUpRegulator,
        wait_op(5, RC32M),
        ClockOp::PllPowerUpCore,
        ClockOp::PllPowerUpStages,
        wait_op(5, RC32M),
        ClockOp::PllSdmReset(true),
        wait_op(1, RC32M),
        ClockOp::PllFeedbackReset(true),
        wait_op(2, RC32M),
        ClockOp::PllFeedbackReset(false),
        wait_op(1, RC32M),
        ClockOp::PllSdmReset(false),
    ]
}

/// Microseconds that the PLL is given to lock.
pub const PLL_LOCK_US: u32 = 55;

/// The wait for the PLL to lock.
pub open spec fn pll_lock_ops() -> Seq<ClockOp> {
    seq![wait_op(PLL_LOCK_US, RC32M)]
}

/// Switching the root clock to the PLL tap of `sysclk`: outputs and PLL
/// enabled, tap selected, bus divider and ROM wait state where the frequency
/// asks for them, then the switch, the new core frequency and a microsecond
/// to settle.
pub open spec fn root_switch_ops(sysclk: SysclkFreq) -> Seq<ClockOp> {
    seq![
        ClockOp::EnablePllOutputs,
        ClockOp::EnablePll,
        ClockOp::SelectPllTap(sysclk.tap().unwrap()),
    ] + (if bclk_div_for(sysclk) == 0 {
        Seq::<ClockOp>::empty()
    } else {
        divider_ops(0, bclk_div_for(sysclk), RC32M)
    }) + (if rom_needs_wait_state(sysclk) {
        seq![ClockOp::SetRomWaitState]
    } else {
        Seq::<ClockOp>::empty()
    }) + seq![
        ClockOp::SelectRootPll,
        ClockOp::SetCoreClock(sysclk.hz()),
        wait_op(1, sysclk.hz()),
        ClockOp::SelectPkaClock(true),
    ]
}

/// Programming the UART and SPI clocks of `plan`: the UART source, then each
/// divider field, which holds the divisor minus one.
pub open spec fn secondary_ops(plan: ClockPlan) -> Seq<ClockOp> {
    seq![
        ClockOp::SelectUartClock(plan.uses_pll()),
        ClockOp::SetUartDivider { field: (plan.uart_div - 1) as u8 },
        ClockOp::SetSpiDivider { field: (plan.spi_div - 1) as u8 },
    ]
}

/// A wait of `us` microseconds on a core that runs at `core_clock` Hz.
pub fn wait(us: u32, core_clock: u32) -> (op: ClockOp)
    ensures
        op == wait_op(us, core_clock),
{
    let delay = McycleDelay::new(core_clock);
    ClockOp::Wait { us, cycles: delay.cycles_for_us(us) }
}

/// Appends to `ops` the operations that set the divider fields to `hclk_div`
/// and `bclk_div` on a core that runs at `core_clock` Hz, and returns the core
/// frequency that results.
pub fn glb_set_system_clk_div(ops: &mut Vec<ClockOp>, hclk_div: u8, bclk_div: u8, core_clock: u32)
    -> (new_clock: u32)
    ensures
        final(ops)@ == old(ops)@ + divider_ops(hclk_div, bclk_div, core_clock),
        new_clock == divided_clock(core_clock, hclk_div),
{
    let new_clock = core_clock / (hclk_div as u32 + 1);
    ops.push(ClockOp::SetBusDividers { hclk_div, bclk_div });
    ops.push(ClockOp::GateBusClock(true));
    ops.push(ClockOp::GateBusClock(false));
    ops.push(ClockOp::SetCoreClock(new_clock));
    ops.push(wait(1, new_clock));
    ops.push(ClockOp::EnableBusClocks);
    ops.push(wait(1, new_clock));
    assert(ops@ =~= old(ops)@ + divider_ops(hclk_div, bclk_div, core_clock));
    new_clock
}

/// The operations that put the system clock on the internal RC oscillator,
/// from a core that runs at `core_clock` Hz.
pub fn glb_set_system_clk_rc32(core_clock: u32) -> (ops: Vec<ClockOp>)
    ensures
        ops@ == safe_default_ops(core_clock),
{
    let mut ops: Vec<ClockOp> = Vec::new();
    ops.push(ClockOp::EnableRootClocks);
    ops.push(ClockOp::SelectRootRc32);
    let _ = glb_set_system_clk_div(&mut ops, 0, 0, core_clock);
    ops.push(ClockOp::SetCoreClock(RC32M));
    ops.push(ClockOp::SelectPkaClock(false));
    assert(ops@ =~= safe_default_ops(core_clock));
    ops
}

/// The operations that power up the external crystal.
pub fn aon_power_on_xtal() -> (ops: Vec<ClockOp>)
    ensures
        ops@ == crystal_power_ops(),
{
    let mut ops: Vec<ClockOp> = Vec::new();
    ops.push(ClockOp::PowerOnCrystal);
    ops.push(wait(CRYSTAL_POLL_SPACING_US, RC32M));
    assert(ops@ =~= crystal_power_ops());
    ops
}

/// The operations that configure the PLL with `params`.
pub fn pds_configure_pll(params: &PllParams) -> (ops: Vec<ClockOp>)
    ensures
        ops@ == pll_config_ops(*params),
{
    let mut ops: Vec<ClockOp> = Vec::new();
    ops.push(ClockOp::SelectPllReference);
    ops.push(ClockOp::PllPowerDownCore);
    ops.push(ClockOp::PllPowerDownStages);
    ops.push(
        ClockOp::PllChargePump {
            icp_1u: params.icp_1u,
            icp_5u: params.icp_5u,
            int_frac_sw: params.int_frac_sw,
        },
    );
    ops.push(
        ClockOp::PllLoopFilter {
            c3: params.c3,
            cz: params.cz,
            rz: params.rz,
            r4_short: params.r4_short,
        },
    );
    ops.push(
        ClockOp::PllTopControl { postdiv: params.postdiv, refdiv_ratio: params.refdiv_ratio },
    );
    ops.push(ClockOp::PllSdm { sdmin: params.sdmin });
    ops.push(
        ClockOp::PllFeedback {
            sel_fb_clk: params.sel_fb_clk,
            sel_sample_clk: params.sel_sample_clk,
        },
    );
    assert(ops@ =~= pll_config_ops(*params));
    ops
}

/// The operations of the PLL power-up sequence.
pub fn pds_power_on_pll() -> (ops: Vec<ClockOp>)
    ensures
        ops@ == pll_power_up_ops(),
{
    let mut ops: Vec<ClockOp> = Vec::new();
    ops.push(ClockOp::PllPowerUpRegulator);
    ops.push(wait(5, RC32M));
    ops.push(ClockOp::PllPowerUpCore);
    ops.push(ClockOp::PllPowerUpStages);
    ops.push(wait(5, RC32M));
    ops.push(ClockOp::PllSdmReset(true));
    ops.push(wait(1, RC32M));
    ops.push(ClockOp::PllFeedbackReset(true));
    ops.push(wait(2, RC32M));
    ops.push(ClockOp::PllFeedbackReset(false));
    ops.push(wait(1, RC32M));
    ops.push(ClockOp::PllSdmReset(false));
    assert(ops@ =~= pll_power_up_ops());
    ops
}

/// The wait for the PLL to lock.
pub fn pds_await_pll_lock() -> (ops: Vec<ClockOp>)
    ensures
        ops@ == pll_lock_ops(),
{
    let mut ops: Vec<ClockOp> = Vec::new();
    ops.push(wait(PLL_LOCK_US, RC32M));
    assert(ops@ =~= pll_lock_ops());
    ops
}

/// The operations that switch the system clock to the PLL tap of `sysclk`.
pub fn glb_set_system_clk_pll(sysclk: SysclkFreq) -> (ops: Vec<ClockOp>)
    requires
        sysclk != SysclkFreq::Rc32Mhz,
    ensures
        ops@ == root_switch_ops(sysclk),
{
    let target_core_clk = sysclk.hertz();
    let tap = match sysclk.pll_tap() {
        Some(t) => t,
        None => 0,
    };
    let mut ops: Vec<ClockOp> = Vec::new();
    ops.push(ClockOp::EnablePllOutputs);
    ops.push(ClockOp::EnablePll);
    ops.push(ClockOp::SelectPllTap(tap));
    // Keep the bus clock at or under 80 MHz.
    if target_core_clk > 48_000_000 {
        let _ = glb_set_system_clk_div(&mut ops, 0, 1, RC32M);
    }
    // Above 120 MHz the internal ROM needs two cycles per access.
    if target_core_clk > 120_000_000 {
        ops.push(ClockOp::SetRomWaitState);
    }
    ops.push(ClockOp::SelectRootPll);
    ops.push(ClockOp::SetCoreClock(target_core_clk));
    ops.push(wait(1, target_core_clk));
    ops.push(ClockOp::SelectPkaClock(true));
    assert(ops@ =~= root_switch_ops(sysclk));
    ops
}

/// The operations that program the UART and SPI clocks of `plan`.
pub fn set_secondary_clocks(plan: &ClockPlan) -> (ops: Vec<ClockOp>)
    requires
        plan.consistent(),
    ensures
        ops@ == secondary_ops(*plan),
{
    let mut ops: Vec<ClockOp> = Vec::new();
    ops.push(ClockOp::SelectUartClock(plan.xtal_freq.is_some()));
    ops.push(ClockOp::SetUartDivider { field: plan.uart_div - 1 });
    ops.push(ClockOp::SetSpiDivider { field: plan.spi_div - 1 });
    assert(ops@ =~= secondary_ops(*plan));
    ops
}

} // verus!
