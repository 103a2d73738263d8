//! What the clock operations do to the clock registers.
//!
//! [`ClockRegs`] holds the fields of the clock registers that decide which
//! clocks run: the selectors, the dividers and the enables. Applying an
//! operation to it gives the fields as the operation leaves them. From the
//! fields follow the clocks that the hardware then runs, which is what a
//! frozen clock description has to agree with.

use vstd::prelude::*;
use crate::clock::ops::ClockOp;
use crate::clock::{UART_PLL_FREQ, bus_clock_of, calculate_bus_clock, root_clock_of};

verus! {

/// The fields of the clock registers that decide which clocks run.
#[derive(Clone, Copy, Debug, PartialEq, Eq, Structural)]
pub struct ClockRegs {
    /// Root clock selector: 0 for the RC oscillator, 1 for the crystal, 2
    /// and 3 for the PLL.
    pub root_clk_sel: u8,
    /// PLL tap selector.
    pub pll_sel: u8,
    /// Core clock divider field.
    pub hclk_div: u8,
    /// Bus clock divider field.
    pub bclk_div: u8,
    /// PLL enable bit of the clock configuration.
    pub pll_enable: bool,
    /// Output taps of the PLL enabled.
    pub pll_outputs: bool,
    /// Power of the PLL core.
    pub pll_power: bool,
    /// Power of the crystal oscillator.
    pub crystal_power: bool,
    /// Core frequency in Hz as the hardware records it.
    pub core_clock: u32,
    /// UART clock source: the PLL when set, the core clock when clear.
    pub uart_from_pll: bool,
    /// UART divider field.
    pub uart_div: u8,
    /// UART clock enable.
    pub uart_clk_enable: bool,
    /// SPI divider field.
    pub spi_div: u8,
    /// SPI clock enable.
    pub spi_clk_enable: bool,
    /// Second access cycle of the instruction ROM.
    pub rom_wait_state: bool,
    /// Clock of the public-key engine: the PLL when set.
    pub pka_from_pll: bool,
}

impl ClockRegs {
    /// The fields as `op` leaves them. A wait, a pulse on the bus clock
    /// gate and the analog parameters of the PLL change none of them.
    pub open spec fn after(self, op: ClockOp) -> ClockRegs {
        match op {
            ClockOp::SelectRootRc32 => ClockRegs { root_clk_sel: 0, ..self },
            ClockOp::SetBusDividers { hclk_div, bclk_div } => ClockRegs {
                hclk_div,
                bclk_div,
                ..self
            },
            ClockOp::SetCoreClock(hz) => ClockRegs { core_clock: hz, ..self },
            ClockOp::SelectPkaClock(pll) => ClockRegs { pka_from_pll: pll, ..self },
            ClockOp::PowerOnCrystal => ClockRegs { crystal_power: true, ..self },
            ClockOp::PllPowerDownCore => ClockRegs { pll_power: false, ..self },
            ClockOp::PllPowerUpCore => ClockRegs { pll_power: true, ..self },
            ClockOp::EnablePllOutputs => ClockRegs { pll_outputs: true, ..self },
            ClockOp::EnablePll => ClockRegs { pll_enable: true, ..self },
            ClockOp::SelectPllTap(tap) => ClockRegs { pll_sel: tap, ..self },
            ClockOp::SetRomWaitState => ClockRegs { rom_wait_state: true, ..self },
            ClockOp::SelectRootPll => ClockRegs { root_clk_sel: self.root_clk_sel | 2, ..self },
            ClockOp::SelectUartClock(pll) => ClockRegs { uart_from_pll: pll, ..self },
            ClockOp::SetUartDivider { field } => ClockRegs {
                uart_div: field,
                uart_clk_enable: true,
                ..self
            },
            ClockOp::SetSpiDivider { field } => ClockRegs {
                spi_div: field,
                spi_clk_enable: true,
                ..self
            },
            _ => self,
        }
    }

    /// The fields after the operations of `ops` from place `from` on, in
    /// order.
    pub open spec fn after_from(self, ops: Seq<ClockOp>, from: int) -> ClockRegs
        decreases ops.len() - from,
    {
        if 0 <= from < ops.len() {
            self.after(ops[from]).after_from(ops, from + 1)
        } else {
            self
        }
    }

    /// The fields after all of `ops`, in order.
    pub open spec fn after_all(self, ops: Seq<ClockOp>) -> ClockRegs {
        self.after_from(ops, 0)
    }

    /// Whether the root clock comes from the PLL.
    pub open spec fn runs_from_pll(self) -> bool {
        self.root_clk_sel >= 2
    }

    /// Frequency of the root clock in Hz.
    pub open spec fn root_hz(self) -> u32 {
        root_clock_of(self.root_clk_sel, self.pll_sel)
    }

    /// Frequency of the core clock in Hz.
    pub open spec fn sysclk_hz(self) -> u32 {
        (self.root_hz() as int / (self.hclk_div + 1)) as u32
    }

    /// Frequency of the bus clock in Hz.
    pub open spec fn bus_hz(self) -> u32 {
        bus_clock_of(self.root_hz(), self.hclk_div, self.bclk_div)
    }

    /// Frequency of the UART clock in Hz.
    pub open spec fn uart_hz(self) -> u32 {
        (if self.uart_from_pll {
            UART_PLL_FREQ as int
        } else {
            self.sysclk_hz() as int
        } / (self.uart_div + 1)) as u32
    }

    /// Frequency of the SPI clock in Hz.
    pub open spec fn spi_hz(self) -> u32 {
        (self.bus_hz() as int / (self.spi_div + 1)) as u32
    }

    /// Whether `op` may be applied to these fields: the PLL is powered,
    /// configured and selected only while the root clock does not come from
    /// it. Switching the root clock to the PLL is the one operation that is
    /// exempt, and it asks for a PLL that is powered and enabled.
    pub open spec fn admits(self, op: ClockOp) -> bool {
        if op == ClockOp::SelectRootPll {
            self.pll_power && self.pll_enable && self.pll_outputs
        } else {
            op.touches_pll() ==> !self.runs_from_pll()
        }
    }

    /// Whether each operation of `ops` from place `from` on may be applied
    /// when its turn comes.
    pub open spec fn admits_from(self, ops: Seq<ClockOp>, from: int) -> bool
        decreases ops.len() - from,
    {
        if 0 <= from < ops.len() {
            self.admits(ops[from]) && self.after(ops[from]).admits_from(ops, from + 1)
        } else {
            true
        }
    }

    /// Whether each operation of `ops` may be applied when its turn comes.
    pub open spec fn admits_all(self, ops: Seq<ClockOp>) -> bool {
        self.admits_from(ops, 0)
    }

    /// The fields as they are after reset: everything on the RC oscillator,
    /// undivided, with the PLL and the crystal off.
    pub fn reset() -> (regs: Self)
        ensures
            regs == (ClockRegs {
                root_clk_sel: 0,
                pll_sel: 0,
                hclk_div: 0,
                bclk_div: 0,
                pll_enable: false,
                pll_outputs: false,
                pll_power: false,
                crystal_power: false,
                core_clock: 32_000_000,
                uart_from_pll: false,
                uart_div: 0,
                uart_clk_enable: false,
                spi_div: 0,
                spi_clk_enable: false,
                rom_wait_state: false,
                pka_from_pll: false,
            }),
    {
        ClockRegs {
            root_clk_sel: 0,
            pll_sel: 0,
            hclk_div: 0,
            bclk_div: 0,
            pll_enable: false,
            pll_outputs: false,
            pll_power: false,
            crystal_power: false,
            core_clock: 32_000_000,
            uart_from_pll: false,
            uart_div: 0,
            uart_clk_enable: false,
            spi_div: 0,
            spi_clk_enable: false,
            rom_wait_state: false,
            pka_from_pll: false,
        }
    }

    /// Applies one operation to the fields.
    pub fn apply(&mut self, op: ClockOp)
        ensures
            *final(self) == old(self).after(op),
    {
        let regs = *self;
        *self = match op {
            ClockOp::SelectRootRc32 => ClockRegs { root_clk_sel: 0, ..regs },
            ClockOp::SetBusDividers { hclk_div, bclk_div } => ClockRegs {
                hclk_div,
                bclk_div,
                ..regs
            },
            ClockOp::SetCoreClock(hz) => ClockRegs { core_clock: hz, ..regs },
            ClockOp::SelectPkaClock(pll) => ClockRegs { pka_from_pll: pll, ..regs },
            ClockOp::PowerOnCrystal => ClockRegs { crystal_power: true, ..regs },
            ClockOp::PllPowerDownCore => ClockRegs { pll_power: false, ..regs },
            ClockOp::PllPowerUpCore => ClockRegs { pll_power: true, ..regs },
            ClockOp::EnablePllOutputs => ClockRegs { pll_outputs: true, ..regs },
            ClockOp::EnablePll => ClockRegs { pll_enable: true, ..regs },
            ClockOp::SelectPllTap(tap) => ClockRegs { pll_sel: tap, ..regs },
            ClockOp::SetRomWaitState => ClockRegs { rom_wait_state: true, ..regs },
            ClockOp::SelectRootPll => ClockRegs { root_clk_sel: regs.root_clk_sel | 2, ..regs },
            ClockOp::SelectUartClock(pll) => ClockRegs { uart_from_pll: pll, ..regs },
            ClockOp::SetUartDivider { field } => ClockRegs {
                uart_div: field,
                uart_clk_enable: true,
                ..regs
            },
            ClockOp::SetSpiDivider { field } => ClockRegs {
                spi_div: field,
                spi_clk_enable: true,
                ..regs
            },
            _ => regs,
        };
    }

    /// Applies the operations of `ops` to the fields, in order.
    pub fn apply_all(&mut self, ops: &[ClockOp])
        ensures
            *final(self) == old(self).after_all(ops@),
    {
        let mut i: usize = 0;
        while i < ops.len()
            invariant
                i <= ops.len(),
                self.after_from(ops@, i as int) == old(self).after_from(ops@, 0),
            decreases ops.len() - i,
        {
            self.apply(ops[i]);
            i += 1;
        }
    }

    /// Frequency of the bus clock in Hz that the fields give.
    pub fn bus_clock(&self) -> (hz: u32)
        ensures
            hz == self.bus_hz(),
    {
        calculate_bus_clock(self.root_clk_sel, self.pll_sel, self.hclk_div, self.bclk_div)
    }
}

/// Applying two lists one after the other is applying the two as one.
pub proof fn lemma_after_all_concat(regs: ClockRegs, first: Seq<ClockOp>, second: Seq<ClockOp>)
    ensures
        regs.after_all(first + second) == regs.after_all(first).after_all(second),
        regs.admits_all(first + second) == (regs.admits_all(first) && regs.after_all(
            first,
        ).admits_all(second)),
{
    lemma_after_from_concat(regs, first, second, 0);
}

proof fn lemma_after_from_concat(
    regs: ClockRegs,
    first: Seq<ClockOp>,
    second: Seq<ClockOp>,
    from: int,
)
    requires
        0 <= from <= first.len(),
    ensures
        regs.after_from(first + second, from) == regs.after_from(first, from).after_all(second),
        regs.admits_from(first + second, from) == (regs.admits_from(first, from)
            && regs.after_from(first, from).admits_all(second)),
    decreases first.len() - from,
{
    let both = first + second;
    if from < first.len() {
        assert(both[from] == first[from]);
        lemma_after_from_concat(regs.after(first[from]), first, second, from + 1);
    } else {
        lemma_after_from_shift(regs, first, second, 0);
    }
}

proof fn lemma_after_from_shift(
    regs: ClockRegs,
    first: Seq<ClockOp>,
    second: Seq<ClockOp>,
    from: int,
)
    requires
        0 <= from <= second.len(),
    ensures
        regs.after_from(first + second, first.len() + from) == regs.after_from(second, from),
        regs.admits_from(first + second, first.len() + from) == regs.admits_from(second, from),
    decreases second.len() - from,
{
    let both = first + second;
    if from < second.len() {
        assert(both[first.len() + from] == second[from]);
        lemma_after_from_shift(regs.after(second[from]), first, second, from + 1);
    }
}

} // verus!
