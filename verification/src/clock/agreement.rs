//! The engine and the registers agree.
//!
//! Two things hold of every run of the clock engine, whatever the registers
//! held before and whatever the crystal's ready bit reads. The PLL is
//! powered, configured and selected only while the root clock does not come
//! from it. And the registers hold what the engine's state says, so that
//! the clocks of a frozen configuration are the clocks that run.

use vstd::prelude::*;
use crate::clock::ops::{
    ClockOp, crystal_power_ops, divider_ops, pll_config_ops, pll_lock_ops, pll_power_up_ops,
    root_switch_ops, safe_default_ops, secondary_ops,
};
use crate::clock::registers::{ClockRegs, lemma_after_all_concat};
use crate::clock::sequence::{
    ClockState, SequencerView, initial, on_pll_path, run, step_of, step_ops, trace,
};
use crate::clock::{
    ClockPlan, PllParams, RC32M, bclk_div_for, lemma_bus_clock_follows_dividers,
    rom_needs_wait_state,
};

verus! {

/// The core runs from the RC oscillator, undivided.
pub open spec fn on_rc(r: ClockRegs) -> bool {
    r.root_clk_sel == 0 && r.hclk_div == 0 && r.bclk_div == 0 && r.core_clock == RC32M
}

/// The core runs from the PLL tap of `plan`, with the bus divider that goes
/// with it.
pub open spec fn on_pll(plan: ClockPlan, r: ClockRegs) -> bool {
    &&& r.root_clk_sel == 2
    &&& Some(r.pll_sel) == plan.sysclk.tap()
    &&& r.hclk_div == 0
    &&& r.bclk_div == bclk_div_for(plan.sysclk)
    &&& r.core_clock == plan.sysclk.hz()
    &&& r.pll_power
    &&& r.pll_enable
    &&& r.pll_outputs
}

/// The UART and SPI clocks are set as `plan` has them.
pub open spec fn secondary_set(plan: ClockPlan, r: ClockRegs) -> bool {
    &&& r.uart_from_pll == plan.uses_pll()
    &&& r.uart_div == plan.uart_div - 1
    &&& r.uart_clk_enable
    &&& r.spi_div == plan.spi_div - 1
    &&& r.spi_clk_enable
}

/// Whether the registers `r` hold what the engine's state `s` says.
pub open spec fn regs_agree(s: SequencerView, r: ClockRegs) -> bool {
    match s.state {
        ClockState::Unconfigured => true,
        ClockState::SafeDefault => on_rc(r),
        ClockState::CrystalPowering => on_rc(r) && r.crystal_power,
        ClockState::CrystalTimeout => on_rc(r),
        ClockState::PllConfiguring => on_rc(r) && r.crystal_power,
        ClockState::PllPoweringUp => on_rc(r) && r.crystal_power && r.pll_power,
        ClockState::PllStabilizing => on_rc(r) && r.crystal_power && r.pll_power,
        ClockState::RootClockSwitched => on_pll(s.plan, r),
        ClockState::Frozen => secondary_set(s.plan, r) && if s.plan.uses_pll() {
            on_pll(s.plan, r)
        } else {
            on_rc(r)
        },
    }
}

/// Whether `s` is a state that a run can be in: its plan is consistent, and
/// only a PLL plan is on the PLL part of the sequence.
pub open spec fn reachable(s: SequencerView) -> bool {
    s.plan.consistent() && (on_pll_path(s.state) ==> s.plan.uses_pll())
}

proof fn lemma_divider_ops(r: ClockRegs, bclk_div: u8, core_clock: u32)
    ensures
        r.after_all(divider_ops(0, bclk_div, core_clock)) == (ClockRegs {
            hclk_div: 0,
            bclk_div,
            core_clock,
            ..r
        }),
        r.admits_all(divider_ops(0, bclk_div, core_clock)),
{
    reveal_with_fuel(ClockRegs::after_from, 8);
    reveal_with_fuel(ClockRegs::admits_from, 8);
    assert(core_clock as int / 1 == core_clock);
}

proof fn lemma_safe_default_ops(r: ClockRegs, core_clock: u32)
    ensures
        on_rc(r.after_all(safe_default_ops(core_clock))),
        r.admits_all(safe_default_ops(core_clock)),
        r.after_all(safe_default_ops(core_clock)).pll_power == r.pll_power,
        r.after_all(safe_default_ops(core_clock)).crystal_power == r.crystal_power,
{
    let head = seq![ClockOp::EnableRootClocks, ClockOp::SelectRootRc32];
    let tail = seq![ClockOp::SetCoreClock(RC32M), ClockOp::SelectPkaClock(false)];
    let r1 = r.after_all(head);
    let r2 = r1.after_all(divider_ops(0, 0, core_clock));
    assert(r1 == (ClockRegs { root_clk_sel: 0, ..r }) && r.admits_all(head)) by {
        reveal_with_fuel(ClockRegs::after_from, 3);
        reveal_with_fuel(ClockRegs::admits_from, 3);
    }
    lemma_divider_ops(r1, 0, core_clock);
    assert(r2.after_all(tail) == (ClockRegs { core_clock: RC32M, pka_from_pll: false, ..r2 })
        && r2.admits_all(tail)) by {
        reveal_with_fuel(ClockRegs::after_from, 3);
        reveal_with_fuel(ClockRegs::admits_from, 3);
    }
    lemma_after_all_concat(r, head, divider_ops(0, 0, core_clock));
    lemma_after_all_concat(r, head + divider_ops(0, 0, core_clock), tail);
}

proof fn lemma_crystal_power_ops(r: ClockRegs)
    ensures
        r.after_all(crystal_power_ops()) == (ClockRegs { crystal_power: true, ..r }),
        r.admits_all(crystal_power_ops()),
{
    reveal_with_fuel(ClockRegs::after_from, 3);
    reveal_with_fuel(ClockRegs::admits_from, 3);
}

proof fn lemma_wait_ops(r: ClockRegs, ops: Seq<ClockOp>)
    requires
        ops.len() <= 1,
        ops.len() == 1 ==> ops[0] is Wait,
    ensures
        r.after_all(ops) == r,
        r.admits_all(ops),
{
    reveal_with_fuel(ClockRegs::after_from, 2);
    reveal_with_fuel(ClockRegs::admits_from, 2);
}

proof fn lemma_pll_config_ops(r: ClockRegs, params: PllParams)
    requires
        !r.runs_from_pll(),
    ensures
        r.after_all(pll_config_ops(params)) == (ClockRegs { pll_power: false, ..r }),
        r.admits_all(pll_config_ops(params)),
{
    reveal_with_fuel(ClockRegs::after_from, 9);
    reveal_with_fuel(ClockRegs::admits_from, 9);
}

proof fn lemma_pll_power_up_ops(r: ClockRegs)
    requires
        !r.runs_from_pll(),
    ensures
        r.after_all(pll_power_up_ops()) == (ClockRegs { pll_power: true, ..r }),
        r.admits_all(pll_power_up_ops()),
{
    reveal_with_fuel(ClockRegs::after_from, 13);
    reveal_with_fuel(ClockRegs::admits_from, 13);
}

proof fn lemma_root_switch_ops(plan: ClockPlan, r: ClockRegs)
    requires
        plan.consistent(),
        plan.uses_pll(),
        on_rc(r),
        r.pll_power,
    ensures
        on_pll(plan, r.after_all(root_switch_ops(plan.sysclk))),
        r.admits_all(root_switch_ops(plan.sysclk)),
{
    let sysclk = plan.sysclk;
    let tap = sysclk.tap().unwrap();
    let a = seq![ClockOp::EnablePllOutputs, ClockOp::EnablePll, ClockOp::SelectPllTap(tap)];
    let b = if bclk_div_for(sysclk) == 0 {
        Seq::<ClockOp>::empty()
    } else {
        divider_ops(0, bclk_div_for(sysclk), RC32M)
    };
    let c = if rom_needs_wait_state(sysclk) {
        seq![ClockOp::SetRomWaitState]
    } else {
        Seq::<ClockOp>::empty()
    };
    let d = seq![
        ClockOp::SelectRootPll,
        ClockOp::SetCoreClock(sysclk.hz()),
        crate::clock::ops::wait_op(1, sysclk.hz()),
        ClockOp::SelectPkaClock(true),
    ];
    let ra = r.after_all(a);
    let rb = ra.after_all(b);
    let rc = rb.after_all(c);
    assert(ra == (ClockRegs { pll_outputs: true, pll_enable: true, pll_sel: tap, ..r })
        && r.admits_all(a)) by {
        reveal_with_fuel(ClockRegs::after_from, 4);
        reveal_with_fuel(ClockRegs::admits_from, 4);
    }
    assert(rb == (ClockRegs { bclk_div: bclk_div_for(sysclk), ..ra }) && ra.admits_all(b)) by {
        if bclk_div_for(sysclk) == 0 {
            reveal_with_fuel(ClockRegs::after_from, 1);
            reveal_with_fuel(ClockRegs::admits_from, 1);
        } else {
            lemma_divider_ops(ra, bclk_div_for(sysclk), RC32M);
        }
    }
    assert(rc.root_clk_sel == 0 && rc.pll_sel == tap && rc.hclk_div == 0 && rc.bclk_div
        == bclk_div_for(sysclk) && rc.pll_power && rc.pll_enable && rc.pll_outputs
        && rb.admits_all(c)) by {
        reveal_with_fuel(ClockRegs::after_from, 2);
        reveal_with_fuel(ClockRegs::admits_from, 2);
    }
    assert(0u8 | 2u8 == 2u8) by (bit_vector);
    assert(rc.after_all(d) == (ClockRegs {
        root_clk_sel: 2,
        core_clock: sysclk.hz(),
        pka_from_pll: true,
        ..rc
    }) && rc.admits_all(d)) by {
        reveal_with_fuel(ClockRegs::after_from, 5);
        reveal_with_fuel(ClockRegs::admits_from, 5);
    }
    lemma_after_all_concat(r, a, b);
    lemma_after_all_concat(r, a + b, c);
    lemma_after_all_concat(r, a + b + c, d);
    assert(root_switch_ops(sysclk) == a + b + c + d);
}

proof fn lemma_secondary_ops(plan: ClockPlan, r: ClockRegs)
    requires
        plan.consistent(),
    ensures
        r.after_all(secondary_ops(plan)) == (ClockRegs {
            uart_from_pll: plan.uses_pll(),
            uart_div: (plan.uart_div - 1) as u8,
            uart_clk_enable: true,
            spi_div: (plan.spi_div - 1) as u8,
            spi_clk_enable: true,
            ..r
        }),
        r.admits_all(secondary_ops(plan)),
{
    reveal_with_fuel(ClockRegs::after_from, 4);
    reveal_with_fuel(ClockRegs::admits_from, 4);
}

/// One step keeps the agreement: from registers that hold what the state
/// says, the operations of a step may all be applied, and they leave the
/// registers holding what the next state says.
pub proof fn lemma_step_keeps_agreement(s: SequencerView, r: ClockRegs, crystal_ready: bool)
    requires
        reachable(s),
        regs_agree(s, r),
    ensures
        reachable(step_of(s, crystal_ready)),
        regs_agree(step_of(s, crystal_ready), r.after_all(step_ops(s, crystal_ready))),
        r.admits_all(step_ops(s, crystal_ready)),
{
    let ops = step_ops(s, crystal_ready);
    match s.state {
        ClockState::Unconfigured => {
            lemma_safe_default_ops(r, s.core_clock);
        },
        ClockState::SafeDefault => {
            if s.plan.uses_pll() {
                lemma_crystal_power_ops(r);
            } else {
                lemma_secondary_ops(s.plan, r);
            }
        },
        ClockState::CrystalPowering => {
            if crystal_ready {
                lemma_pll_config_ops(
                    r,
                    crate::clock::pll_params_of(s.plan.xtal_freq.unwrap()),
                );
            } else {
                lemma_wait_ops(r, ops);
            }
        },
        ClockState::PllConfiguring => {
            lemma_pll_power_up_ops(r);
        },
        ClockState::PllPoweringUp => {
            lemma_wait_ops(r, pll_lock_ops());
        },
        ClockState::PllStabilizing => {
            lemma_root_switch_ops(s.plan, r);
        },
        ClockState::RootClockSwitched => {
            lemma_secondary_ops(s.plan, r);
        },
        ClockState::Frozen => {
            lemma_wait_ops(r, ops);
        },
        ClockState::CrystalTimeout => {
            lemma_wait_ops(r, ops);
        },
    }
}

/// A run keeps the agreement, from any state that a run can be in.
pub proof fn lemma_run_keeps_agreement(s: SequencerView, r: ClockRegs, readings: Seq<bool>)
    requires
        reachable(s),
        regs_agree(s, r),
    ensures
        reachable(run(s, readings)),
        regs_agree(run(s, readings), r.after_all(trace(s, readings))),
        r.admits_all(trace(s, readings)),
    decreases readings.len(),
{
    if readings.len() == 0 {
        reveal_with_fuel(ClockRegs::after_from, 1);
        reveal_with_fuel(ClockRegs::admits_from, 1);
    } else {
        let head = step_ops(s, readings[0]);
        let next = step_of(s, readings[0]);
        lemma_step_keeps_agreement(s, r, readings[0]);
        lemma_run_keeps_agreement(next, r.after_all(head), readings.drop_first());
        lemma_after_all_concat(r, head, trace(next, readings.drop_first()));
    }
}

/// A divisor that divides exactly gives back the target.
proof fn lemma_exact_quotient(source: int, divisor: int, target: int)
    by (nonlinear_arith)
    requires
        divisor > 0,
        divisor * target == source,
    ensures
        source / divisor == target,
{
}

/// The PLL is never reprogrammed while it drives the core. In every run of
/// the engine, from whatever the registers held before, each operation that
/// powers, configures or selects the PLL is applied while the root clock
/// does not come from the PLL; and the root clock is switched to the PLL
/// only once the PLL is powered and enabled.
pub proof fn lemma_pll_reprogrammed_off_line(
    plan: ClockPlan,
    core_clock: u32,
    before: ClockRegs,
    readings: Seq<bool>,
)
    requires
        plan.consistent(),
    ensures
        before.admits_all(trace(initial(plan, core_clock), readings)),
{
    lemma_run_keeps_agreement(initial(plan, core_clock), before, readings);
}

/// The frozen clocks are the clocks that run. When a run of the engine ends
/// frozen, the registers, whatever they held before, give a system clock, a
/// bus clock, a UART clock and an SPI clock that are those of the plan, the
/// root clock comes from the PLL exactly when the plan uses it, and the
/// recorded core frequency is the system clock.
pub proof fn lemma_frozen_clocks_are_programmed(
    plan: ClockPlan,
    core_clock: u32,
    before: ClockRegs,
    readings: Seq<bool>,
)
    requires
        plan.consistent(),
        run(initial(plan, core_clock), readings).state == ClockState::Frozen,
    ensures
        ({
            let r = before.after_all(trace(initial(plan, core_clock), readings));
            &&& r.sysclk_hz() == plan.clocks().sysclk
            &&& r.bus_hz() == plan.bus_clk
            &&& r.uart_hz() == plan.clocks().uart_clk
            &&& r.spi_hz() == plan.clocks().spi_clk
            &&& r.runs_from_pll() == plan.clocks().pll_enable
            &&& r.core_clock == plan.clocks().sysclk
            &&& r.uart_clk_enable
            &&& r.spi_clk_enable
        }),
{
    let s0 = initial(plan, core_clock);
    lemma_run_keeps_agreement(s0, before, readings);
    lemma_plan_is_kept(s0, readings);
    let r = before.after_all(trace(s0, readings));
    lemma_bus_clock_follows_dividers(plan.sysclk);
    assert(r.root_hz() == plan.sysclk.hz());
    assert(plan.sysclk.hz() as int / 1 == plan.sysclk.hz());
    assert(r.sysclk_hz() == plan.sysclk.hz());
    assert(r.bus_hz() == plan.bus_clk);
    lemma_exact_quotient(plan.uart_src as int, plan.uart_div as int, plan.uart_clk as int);
    lemma_exact_quotient(plan.bus_clk as int, plan.spi_div as int, plan.spi_clk as int);
}

/// A run carries out the plan it began with.
pub proof fn lemma_plan_is_kept(s: SequencerView, readings: Seq<bool>)
    ensures
        run(s, readings).plan == s.plan,
    decreases readings.len(),
{
    if readings.len() > 0 {
        lemma_plan_is_kept(step_of(s, readings[0]), readings.drop_first());
    }
}

} // verus!
