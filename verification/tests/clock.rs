use bl602_hal::clock::ops::ClockOp;
use bl602_hal::clock::registers::ClockRegs;
use bl602_hal::clock::sequence::{ClockSequencer, ClockState, CrystalTimeout};
use bl602_hal::clock::{
    calculate_bus_clock, exact_divisor, pll_params, Clocks, ConfigError, Strict, SysclkFreq,
    RC32M, UART_PLL_FREQ,
};
use bl602_hal::gpio::Parts;

fn touches_pll(op: &ClockOp) -> bool {
    matches!(
        op,
        ClockOp::SelectPllReference
            | ClockOp::PllPowerDownCore
            | ClockOp::PllPowerDownStages
            | ClockOp::PllChargePump { .. }
            | ClockOp::PllLoopFilter { .. }
            | ClockOp::PllTopControl { .. }
            | ClockOp::PllSdm { .. }
            | ClockOp::PllFeedback { .. }
            | ClockOp::PllPowerUpRegulator
            | ClockOp::PllPowerUpCore
            | ClockOp::PllPowerUpStages
            | ClockOp::PllSdmReset(_)
            | ClockOp::PllFeedbackReset(_)
            | ClockOp::EnablePllOutputs
            | ClockOp::EnablePll
            | ClockOp::SelectPllTap(_)
            | ClockOp::SelectRootPll
    )
}

fn start(cfg: Strict, core_clock: u32) -> ClockSequencer {
    assert!(cfg.check().is_ok());
    cfg.freeze(Parts::new().clk_cfg, core_clock)
}

/// Runs the engine to its end with a crystal that is ready at the look
/// numbered `ready_at`, counted from 1, or never.
fn run(cfg: Strict, core_clock: u32, ready_at: Option<u32>) -> (ClockSequencer, Vec<ClockOp>, u32) {
    let mut engine = start(cfg, core_clock);
    let mut trace: Vec<ClockOp> = Vec::new();
    let mut looks: u32 = 0;
    let mut steps: u32 = 0;
    while engine.outcome().is_none() {
        let ready = if engine.state() == ClockState::CrystalPowering {
            looks += 1;
            ready_at == Some(looks)
        } else {
            false
        };
        trace.extend(engine.step(ready));
        steps += 1;
        assert!(steps < 1000);
    }
    (engine, trace, looks)
}

fn pll_160() -> Strict {
    Strict::new()
        .use_pll(40_000_000)
        .sys_clk(SysclkFreq::Pll160Mhz)
        .uart_clk(40_000_000)
        .spi_clk(20_000_000)
}

#[test]
fn uart_divisor_160_to_40_is_4() {
    assert_eq!(exact_divisor(160_000_000, 40_000_000, 7), Some(4));
    let plan = pll_160().check().unwrap();
    assert_eq!(plan.uart_src, 160_000_000);
    assert_eq!(plan.uart_clk, 40_000_000);
    assert_eq!(plan.uart_div, 4);
}

#[test]
fn uart_clock_of_33_mhz_is_refused_and_nothing_is_written() {
    assert_eq!(exact_divisor(160_000_000, 33_000_000, 7), None);
    let cfg = Strict::new()
        .use_pll(40_000_000)
        .sys_clk(SysclkFreq::Pll160Mhz)
        .uart_clk(33_000_000)
        .spi_clk(20_000_000);
    assert_eq!(cfg.check(), Err(ConfigError::UnreachableUartClock));
}

#[test]
fn exact_divisor_edges() {
    assert_eq!(exact_divisor(32_000_000, 32_000_000, 7), Some(1));
    assert_eq!(exact_divisor(160_000_000, 20_000_000, 7), None);
    assert_eq!(exact_divisor(70, 10, 7), Some(7));
    assert_eq!(exact_divisor(80, 10, 7), None);
    assert_eq!(exact_divisor(10, 20, 7), None);
    assert_eq!(exact_divisor(0, 5, 7), None);
    assert_eq!(exact_divisor(80_000_000, 2_500_000, 32), Some(32));
    assert_eq!(exact_divisor(u32::MAX, 1, 32), None);
    assert_eq!(exact_divisor(u32::MAX, u32::MAX, 1), Some(1));
}

#[test]
fn accepted_divisors_multiply_back_to_the_source() {
    let targets: [(u32, u32); 4] =
        [(160_000_000, 80_000_000), (80_000_000, 40_000_000), (32_000_000, 16_000_000), (40_000_000, 2_500_000)];
    for (uart, spi) in targets {
        let cfg = Strict::new()
            .use_pll(40_000_000)
            .sys_clk(SysclkFreq::Pll160Mhz)
            .uart_clk(uart)
            .spi_clk(spi);
        let plan = cfg.check().unwrap();
        assert_eq!(plan.uart_div as u32 * plan.uart_clk, plan.uart_src);
        assert_eq!(plan.spi_div as u32 * plan.spi_clk, plan.bus_clk);
        assert!((1..=7).contains(&plan.uart_div));
        assert!((1..=32).contains(&plan.spi_div));
    }
}

#[test]
fn default_configuration_runs_everything_from_the_rc_oscillator() {
    let plan = Strict::new().check().unwrap();
    assert_eq!(plan.sysclk, SysclkFreq::Rc32Mhz);
    assert_eq!(plan.xtal_freq, None);
    assert_eq!(plan.uart_src, RC32M);
    assert_eq!(plan.uart_clk, RC32M);
    assert_eq!(plan.uart_div, 1);
    assert_eq!(plan.bus_clk, RC32M);
    assert_eq!(plan.spi_clk, RC32M);
    assert_eq!(plan.spi_div, 1);
    assert_eq!(Strict::default().check(), Ok(plan));
}

#[test]
fn pll_frequency_without_crystal_is_unreachable() {
    let cfg = Strict::new().sys_clk(SysclkFreq::Pll160Mhz);
    assert_eq!(cfg.check(), Err(ConfigError::UnreachableSysclk));
    let zero = Strict::new().use_pll(0).sys_clk(SysclkFreq::Pll48Mhz);
    assert_eq!(zero.check(), Err(ConfigError::UnreachableSysclk));
}

#[test]
fn rc_frequency_with_crystal_is_unreachable() {
    let cfg = Strict::new().use_pll(40_000_000);
    assert_eq!(cfg.check(), Err(ConfigError::UnreachableSysclk));
}

#[test]
fn crystal_of_zero_hertz_means_no_pll() {
    let plan = Strict::new().use_pll(0).check().unwrap();
    assert_eq!(plan.xtal_freq, None);
    assert_eq!(plan.uart_src, RC32M);
}

#[test]
fn unsupported_crystal_is_refused() {
    let cfg = Strict::new()
        .use_pll(25_000_000)
        .sys_clk(SysclkFreq::Pll160Mhz)
        .spi_clk(40_000_000);
    assert_eq!(cfg.check(), Err(ConfigError::UnsupportedCrystal));
}

#[test]
fn spi_clock_without_exact_divisor_is_refused() {
    let cfg = Strict::new()
        .use_pll(40_000_000)
        .sys_clk(SysclkFreq::Pll160Mhz)
        .spi_clk(30_000_000);
    assert_eq!(cfg.check(), Err(ConfigError::UnreachableSpiClock));
    let low = Strict::new().spi_clk(500_000);
    assert_eq!(low.check(), Err(ConfigError::UnreachableSpiClock));
}

#[test]
fn pll_configuration_without_spi_clock_is_accepted() {
    let cases: [(SysclkFreq, u32, u8, u32); 3] = [
        (SysclkFreq::Pll48Mhz, 48_000_000, 1, 48_000_000),
        (SysclkFreq::Pll120Mhz, 60_000_000, 1, 60_000_000),
        (SysclkFreq::Pll160Mhz, 80_000_000, 2, 40_000_000),
    ];
    for (sysclk, bus, div, spi) in cases {
        let plan = Strict::new().use_pll(40_000_000).sys_clk(sysclk).check().unwrap();
        assert_eq!(plan.bus_clk, bus);
        assert_eq!(plan.spi_div, div);
        assert_eq!(plan.spi_clk, spi);
        assert_eq!(plan.spi_div as u32 * plan.spi_clk, plan.bus_clk);
        assert_eq!(plan.bus_clk / 32_000_000, div as u32);
    }
}

#[test]
fn uart_scenario_is_accepted_and_programmed() {
    let cfg = Strict::new()
        .use_pll(40_000_000)
        .sys_clk(SysclkFreq::Pll160Mhz)
        .uart_clk(40_000_000);
    let (engine, trace, _) = run(cfg, RC32M, Some(1));
    assert_eq!(engine.state(), ClockState::Frozen);
    let plan = engine.plan();
    assert_eq!(plan.uart_src, 160_000_000);
    assert_eq!(plan.uart_div, 4);
    assert!(trace.contains(&ClockOp::SetUartDivider { field: 3 }));
    assert!(trace.contains(&ClockOp::SelectUartClock(true)));
    assert!(trace.contains(&ClockOp::SetSpiDivider { field: 1 }));
    let clocks = engine.outcome().unwrap().unwrap();
    assert_eq!(clocks.uart_clk(), 40_000_000);
    assert_eq!(clocks.sysclk(), 160_000_000);
    assert_eq!(clocks.spi_clk(), 40_000_000);
    assert!(clocks.pll_enable());
    let mut regs = ClockRegs::reset();
    regs.apply_all(&trace);
    assert_eq!(regs.uart_div, 3);
    assert_eq!(regs.bus_clock() / (regs.spi_div as u32 + 1), clocks.spi_clk());
}

#[test]
fn refused_uart_clock_leaves_no_engine_to_write() {
    let targets: [u32; 4] = [33_000_000, 15_000_000, 320_000_000, 161_000_000];
    for target in targets {
        let cfg = Strict::new()
            .use_pll(40_000_000)
            .sys_clk(SysclkFreq::Pll160Mhz)
            .uart_clk(target);
        assert_eq!(cfg.check(), Err(ConfigError::UnreachableUartClock));
    }
}

#[test]
fn refused_spi_clock_leaves_no_engine_to_write() {
    let targets: [u32; 4] = [30_000_000, 2_000_000, 160_000_000, 80_000_001];
    for target in targets {
        let cfg = Strict::new()
            .use_pll(40_000_000)
            .sys_clk(SysclkFreq::Pll160Mhz)
            .spi_clk(target);
        assert_eq!(cfg.check(), Err(ConfigError::UnreachableSpiClock));
    }
}

#[test]
fn errors_are_reported_in_order() {
    let cfg = Strict::new()
        .sys_clk(SysclkFreq::Pll120Mhz)
        .uart_clk(33_000_000)
        .spi_clk(7);
    assert_eq!(cfg.check(), Err(ConfigError::UnreachableSysclk));
    let cfg = Strict::new()
        .use_pll(25_000_000)
        .sys_clk(SysclkFreq::Pll120Mhz)
        .uart_clk(33_000_000)
        .spi_clk(7);
    assert_eq!(cfg.check(), Err(ConfigError::UnreachableUartClock));
    let cfg = Strict::new().use_pll(25_000_000).sys_clk(SysclkFreq::Pll120Mhz).spi_clk(7);
    assert_eq!(cfg.check(), Err(ConfigError::UnsupportedCrystal));
}

#[test]
fn target_of_zero_withdraws_the_target() {
    let plan = Strict::new().uart_clk(16_000_000).uart_clk(0).spi_clk(1).spi_clk(0).check().unwrap();
    assert_eq!(plan.uart_clk, RC32M);
    assert_eq!(plan.spi_clk, 32_000_000);
}

#[test]
fn bus_clock_per_system_clock() {
    let cases: [(SysclkFreq, u32); 3] = [
        (SysclkFreq::Pll48Mhz, 48_000_000),
        (SysclkFreq::Pll120Mhz, 60_000_000),
        (SysclkFreq::Pll160Mhz, 80_000_000),
    ];
    for (sysclk, bus) in cases {
        let plan =
            Strict::new().use_pll(32_000_000).sys_clk(sysclk).spi_clk(bus).check().unwrap();
        assert_eq!(plan.bus_clk, bus);
        assert_eq!(plan.spi_div, 1);
        assert_eq!(plan.uart_src, UART_PLL_FREQ);
        assert_eq!(plan.uart_div, 1);
    }
}

#[test]
fn bus_clock_from_register_fields() {
    assert_eq!(calculate_bus_clock(0, 0, 0, 0), 32_000_000);
    assert_eq!(calculate_bus_clock(1, 0, 0, 0), 40_000_000);
    assert_eq!(calculate_bus_clock(2, 0, 0, 0), 48_000_000);
    assert_eq!(calculate_bus_clock(2, 1, 0, 1), 60_000_000);
    assert_eq!(calculate_bus_clock(3, 2, 0, 1), 80_000_000);
    assert_eq!(calculate_bus_clock(2, 3, 1, 1), 48_000_000);
    assert_eq!(calculate_bus_clock(2, 2, 255, 255), 2_441);
}

#[test]
fn system_clock_frequencies_and_taps() {
    assert_eq!(SysclkFreq::Rc32Mhz.hertz(), 32_000_000);
    assert_eq!(SysclkFreq::Pll48Mhz.hertz(), 48_000_000);
    assert_eq!(SysclkFreq::Pll120Mhz.hertz(), 120_000_000);
    assert_eq!(SysclkFreq::Pll160Mhz.hertz(), 160_000_000);
    assert_eq!(SysclkFreq::Rc32Mhz.pll_tap(), None);
    assert_eq!(SysclkFreq::Pll48Mhz.pll_tap(), Some(0));
    assert_eq!(SysclkFreq::Pll120Mhz.pll_tap(), Some(1));
    assert_eq!(SysclkFreq::Pll160Mhz.pll_tap(), Some(2));
}

#[test]
fn pll_parameters_per_crystal() {
    let p = pll_params(40_000_000).unwrap();
    assert_eq!((p.xtal_source, p.sdmin), (4, 0x30_0000));
    assert_eq!((p.icp_1u, p.icp_5u, p.int_frac_sw), (0, 2, false));
    assert_eq!((p.c3, p.cz, p.rz, p.r4_short), (3, 1, 1, true));
    assert_eq!((p.postdiv, p.refdiv_ratio, p.sel_fb_clk, p.sel_sample_clk), (0x14, 2, 1, 1));
    let q = pll_params(26_000_000).unwrap();
    assert_eq!((q.xtal_source, q.sdmin), (5, 0x49_D39D));
    assert_eq!((q.icp_1u, q.icp_5u, q.int_frac_sw), (1, 0, true));
    assert_eq!((q.c3, q.cz, q.rz, q.r4_short), (2, 2, 5, false));
    assert_eq!(pll_params(24_000_000).unwrap().sdmin, 0x50_0000);
    assert_eq!(pll_params(32_000_000).unwrap().sdmin, 0x3C_0000);
    assert_eq!(pll_params(38_400_000).unwrap().sdmin, 0x32_0000);
    assert_eq!(pll_params(24_000_000).unwrap().xtal_source, 1);
    assert_eq!(pll_params(32_000_000).unwrap().xtal_source, 2);
    assert_eq!(pll_params(38_400_000).unwrap().xtal_source, 3);
    assert_eq!(pll_params(0), None);
    assert_eq!(pll_params(25_000_000), None);
    assert_eq!(pll_params(40_000_001), None);
}

#[test]
fn clocks_after_reset() {
    let clocks = Clocks::new();
    assert_eq!(clocks.sysclk(), 32_000_000);
    assert_eq!(clocks.uart_clk(), 32_000_000);
    assert_eq!(clocks.spi_clk(), 32_000_000);
    assert_eq!(clocks.xtal_freq(), None);
    assert!(!clocks.pll_enable());
    let again = Clocks::default();
    assert_eq!(again.sysclk(), 32_000_000);
    assert!(!again.pll_enable());
}

#[test]
fn frozen_clocks_read_the_same_every_time() {
    let (engine, _, _) = run(pll_160(), RC32M, Some(1));
    let clocks = engine.outcome().unwrap().unwrap();
    let copy = clocks;
    for _ in 0..3 {
        assert_eq!(clocks.sysclk(), 160_000_000);
        assert_eq!(clocks.uart_clk(), 40_000_000);
        assert_eq!(clocks.spi_clk(), 20_000_000);
        assert_eq!(clocks.xtal_freq(), Some(40_000_000));
        assert!(clocks.pll_enable());
    }
    assert_eq!(copy.sysclk(), clocks.sysclk());
    assert_eq!(engine.outcome().unwrap().unwrap().uart_clk(), 40_000_000);
}

#[test]
fn rc_sequence_is_safe_default_then_dividers() {
    let (engine, trace, looks) = run(Strict::new().uart_clk(8_000_000).spi_clk(4_000_000), 32_000_000, None);
    assert_eq!(engine.state(), ClockState::Frozen);
    assert_eq!(looks, 0);
    let wait = ClockOp::Wait { us: 1, cycles: 32 };
    assert_eq!(
        trace,
        vec![
            ClockOp::EnableRootClocks,
            ClockOp::SelectRootRc32,
            ClockOp::SetBusDividers { hclk_div: 0, bclk_div: 0 },
            ClockOp::GateBusClock(true),
            ClockOp::GateBusClock(false),
            ClockOp::SetCoreClock(32_000_000),
            wait,
            ClockOp::EnableBusClocks,
            wait,
            ClockOp::SetCoreClock(32_000_000),
            ClockOp::SelectPkaClock(false),
            ClockOp::SelectUartClock(false),
            ClockOp::SetUartDivider { field: 3 },
            ClockOp::SetSpiDivider { field: 7 },
        ]
    );
    let clocks = engine.outcome().unwrap().unwrap();
    assert_eq!(clocks.sysclk(), 32_000_000);
    assert_eq!(clocks.uart_clk(), 8_000_000);
    assert_eq!(clocks.spi_clk(), 4_000_000);
    assert_eq!(clocks.xtal_freq(), None);
    assert!(!clocks.pll_enable());
}

#[test]
fn safe_default_waits_at_the_clock_the_core_comes_from() {
    let mut engine = start(Strict::new(), 160_000_000);
    let ops = engine.step(false);
    assert_eq!(ops[5], ClockOp::SetCoreClock(160_000_000));
    assert_eq!(ops[6], ClockOp::Wait { us: 1, cycles: 160 });
    assert_eq!(ops[9], ClockOp::SetCoreClock(32_000_000));
    assert_eq!(engine.core_clock(), 32_000_000);
}

#[test]
fn pll_sequence_in_full() {
    let (engine, trace, looks) = run(pll_160(), RC32M, Some(1));
    assert_eq!(engine.state(), ClockState::Frozen);
    assert_eq!(engine.core_clock(), 160_000_000);
    assert_eq!(looks, 1);
    let us = |us: u32| ClockOp::Wait { us, cycles: 32 * us as u64 };
    assert_eq!(
        trace,
        vec![
            ClockOp::EnableRootClocks,
            ClockOp::SelectRootRc32,
            ClockOp::SetBusDividers { hclk_div: 0, bclk_div: 0 },
            ClockOp::GateBusClock(true),
            ClockOp::GateBusClock(false),
            ClockOp::SetCoreClock(32_000_000),
            us(1),
            ClockOp::EnableBusClocks,
            us(1),
            ClockOp::SetCoreClock(32_000_000),
            ClockOp::SelectPkaClock(false),
            ClockOp::PowerOnCrystal,
            us(10),
            ClockOp::SelectPllReference,
            ClockOp::PllPowerDownCore,
            ClockOp::PllPowerDownStages,
            ClockOp::PllChargePump { icp_1u: 0, icp_5u: 2, int_frac_sw: false },
            ClockOp::PllLoopFilter { c3: 3, cz: 1, rz: 1, r4_short: true },
            ClockOp::PllTopControl { postdiv: 0x14, refdiv_ratio: 2 },
            ClockOp::PllSdm { sdmin: 0x30_0000 },
            ClockOp::PllFeedback { sel_fb_clk: 1, sel_sample_clk: 1 },
            ClockOp::PllPowerUpRegulator,
            us(5),
            ClockOp::PllPowerUpCore,
            ClockOp::PllPowerUpStages,
            us(5),
            ClockOp::PllSdmReset(true),
            us(1),
            ClockOp::PllFeedbackReset(true),
            us(2),
            ClockOp::PllFeedbackReset(false),
            us(1),
            ClockOp::PllSdmReset(false),
            us(55),
            ClockOp::EnablePllOutputs,
            ClockOp::EnablePll,
            ClockOp::SelectPllTap(2),
            ClockOp::SetBusDividers { hclk_div: 0, bclk_div: 1 },
            ClockOp::GateBusClock(true),
            ClockOp::GateBusClock(false),
            ClockOp::SetCoreClock(32_000_000),
            us(1),
            ClockOp::EnableBusClocks,
            us(1),
            ClockOp::SetRomWaitState,
            ClockOp::SelectRootPll,
            ClockOp::SetCoreClock(160_000_000),
            ClockOp::Wait { us: 1, cycles: 160 },
            ClockOp::SelectPkaClock(true),
            ClockOp::SelectUartClock(true),
            ClockOp::SetUartDivider { field: 3 },
            ClockOp::SetSpiDivider { field: 3 },
        ]
    );
}

#[test]
fn pll_at_48_mhz_leaves_bus_divider_and_rom_alone() {
    let cfg = Strict::new().use_pll(24_000_000).sys_clk(SysclkFreq::Pll48Mhz).spi_clk(48_000_000);
    let (engine, trace, _) = run(cfg, RC32M, Some(1));
    assert_eq!(engine.state(), ClockState::Frozen);
    assert!(trace.contains(&ClockOp::SelectPllTap(0)));
    assert!(!trace.contains(&ClockOp::SetBusDividers { hclk_div: 0, bclk_div: 1 }));
    assert!(!trace.contains(&ClockOp::SetRomWaitState));
    assert!(trace.contains(&ClockOp::PllSdm { sdmin: 0x50_0000 }));
}

#[test]
fn pll_at_120_mhz_halves_the_bus_but_leaves_the_rom_alone() {
    let cfg = Strict::new().use_pll(26_000_000).sys_clk(SysclkFreq::Pll120Mhz).spi_clk(60_000_000);
    let (_, trace, _) = run(cfg, RC32M, Some(1));
    assert!(trace.contains(&ClockOp::SelectPllTap(1)));
    assert!(trace.contains(&ClockOp::SetBusDividers { hclk_div: 0, bclk_div: 1 }));
    assert!(!trace.contains(&ClockOp::SetRomWaitState));
    assert!(trace.contains(&ClockOp::PllChargePump { icp_1u: 1, icp_5u: 0, int_frac_sw: true }));
    assert!(trace.contains(&ClockOp::PllLoopFilter { c3: 2, cz: 2, rz: 5, r4_short: false }));
}

#[test]
fn safe_default_comes_before_any_pll_write() {
    for ready_at in [Some(1), Some(2), Some(60), Some(120), None] {
        let (_, trace, _) = run(pll_160(), 160_000_000, ready_at);
        let safe = trace.iter().position(|op| *op == ClockOp::SelectRootRc32).unwrap();
        assert_eq!(safe, 1);
        let first_pll = trace.iter().position(touches_pll);
        if let Some(first) = first_pll {
            assert!(safe < first);
        }
        assert_eq!(first_pll.is_some(), ready_at.is_some());
    }
}

#[test]
fn divider_writes_come_last_and_hold_the_exact_divisors() {
    let (engine, trace, _) = run(pll_160(), RC32M, Some(3));
    let plan = engine.plan();
    let n = trace.len();
    assert_eq!(trace[n - 2], ClockOp::SetUartDivider { field: plan.uart_div - 1 });
    assert_eq!(trace[n - 1], ClockOp::SetSpiDivider { field: plan.spi_div - 1 });
    let root = trace.iter().position(|op| *op == ClockOp::SelectRootPll).unwrap();
    assert!(root < n - 2);
    for op in &trace[..n - 2] {
        assert!(!matches!(op, ClockOp::SetUartDivider { .. } | ClockOp::SetSpiDivider { .. }));
    }
}

#[test]
fn crystal_timeout_after_exactly_120_attempts() {
    let mut engine = start(pll_160(), RC32M);
    engine.step(false);
    let power = engine.step(false);
    assert_eq!(power, vec![ClockOp::PowerOnCrystal, ClockOp::Wait { us: 10, cycles: 320 }]);
    assert_eq!(engine.state(), ClockState::CrystalPowering);
    let mut attempts: u32 = 0;
    let mut waits: u32 = 0;
    while engine.state() == ClockState::CrystalPowering {
        let ops = engine.step(false);
        attempts += 1;
        assert!(attempts <= 120);
        if engine.state() == ClockState::CrystalPowering {
            assert_eq!(ops, vec![ClockOp::Wait { us: 10, cycles: 320 }]);
            waits += 1;
        } else {
            assert!(ops.is_empty());
        }
        assert_eq!(engine.attempts(), attempts);
    }
    assert_eq!(attempts, 120);
    assert_eq!(waits, 119);
    assert_eq!(engine.state(), ClockState::CrystalTimeout);
    assert!(matches!(engine.outcome(), Some(Err(CrystalTimeout))));
}

#[test]
fn crystal_ready_at_the_last_attempt_is_in_time() {
    let (engine, _, looks) = run(pll_160(), RC32M, Some(120));
    assert_eq!(looks, 120);
    assert_eq!(engine.state(), ClockState::Frozen);
    assert_eq!(engine.attempts(), 119);
}

#[test]
fn timeout_writes_no_pll_register() {
    let (engine, trace, looks) = run(pll_160(), RC32M, None);
    assert_eq!(engine.state(), ClockState::CrystalTimeout);
    assert_eq!(looks, 120);
    assert!(!trace.iter().any(touches_pll));
    assert_eq!(trace.len(), 11 + 2 + 119);
    assert_eq!(engine.core_clock(), 32_000_000);
}

#[test]
fn finished_engine_asks_for_nothing_more() {
    let (mut engine, _, _) = run(Strict::new(), RC32M, None);
    assert!(engine.step(true).is_empty());
    assert!(engine.step(false).is_empty());
    assert_eq!(engine.state(), ClockState::Frozen);
    let (mut timed_out, _, _) = run(pll_160(), RC32M, None);
    assert!(timed_out.step(true).is_empty());
    assert_eq!(timed_out.state(), ClockState::CrystalTimeout);
}

#[test]
fn engine_walks_through_every_state() {
    let mut engine = start(pll_160(), RC32M);
    assert_eq!(engine.state(), ClockState::Unconfigured);
    assert!(engine.outcome().is_none());
    let expected = [
        ClockState::SafeDefault,
        ClockState::CrystalPowering,
        ClockState::PllConfiguring,
        ClockState::PllPoweringUp,
        ClockState::PllStabilizing,
        ClockState::RootClockSwitched,
        ClockState::Frozen,
    ];
    for state in expected {
        engine.step(true);
        assert_eq!(engine.state(), state);
    }
    assert!(matches!(engine.outcome(), Some(Ok(_))));
}

#[test]
fn ready_bit_counts_only_while_the_crystal_is_waited_for() {
    let mut a = start(pll_160(), RC32M);
    let mut b = start(pll_160(), RC32M);
    assert_eq!(a.step(true), b.step(false));
    assert_eq!(a.step(true), b.step(false));
    assert_eq!(a.state(), ClockState::CrystalPowering);
    assert_eq!(b.state(), ClockState::CrystalPowering);
}

#[test]
fn replay_of_a_crystal_that_never_sets() {
    let mut engine = start(pll_160(), RC32M);
    let ops = engine.replay(&[false; 200]);
    assert_eq!(engine.state(), ClockState::CrystalTimeout);
    assert_eq!(engine.attempts(), 120);
    assert_eq!(ops.len(), 11 + 2 + 119);
    let polls = &ops[13..];
    assert!(polls.iter().all(|op| *op == ClockOp::Wait { us: 10, cycles: 320 }));
    assert!(!ops.iter().any(touches_pll));
}

#[test]
fn replay_matches_step_by_step() {
    let readings = [false, false, false, false, true, false, false, false, false, false];
    let mut stepped = start(pll_160(), 48_000_000);
    let mut expected: Vec<ClockOp> = Vec::new();
    for ready in readings {
        expected.extend(stepped.step(ready));
    }
    let mut replayed = start(pll_160(), 48_000_000);
    assert_eq!(replayed.replay(&readings), expected);
    assert_eq!(replayed.state(), stepped.state());
    assert_eq!(replayed.state(), ClockState::Frozen);
    assert_eq!(replayed.attempts(), 2);
    assert!(replayed.replay(&[]).is_empty());
}

/// Registers of a chip that already runs from the PLL at 160 MHz.
fn running_from_pll() -> ClockRegs {
    let mut regs = ClockRegs::reset();
    regs.root_clk_sel = 2;
    regs.pll_sel = 2;
    regs.bclk_div = 1;
    regs.pll_enable = true;
    regs.pll_outputs = true;
    regs.pll_power = true;
    regs.crystal_power = true;
    regs.core_clock = 160_000_000;
    regs.rom_wait_state = true;
    regs
}

#[test]
fn registers_after_reset() {
    let regs = ClockRegs::reset();
    assert_eq!(regs.root_clk_sel, 0);
    assert_eq!(regs.core_clock, 32_000_000);
    assert_eq!(regs.bus_clock(), 32_000_000);
    assert!(!regs.pll_enable && !regs.pll_power && !regs.crystal_power);
}

#[test]
fn operations_change_their_own_fields_only() {
    let mut regs = ClockRegs::reset();
    regs.apply(ClockOp::SetBusDividers { hclk_div: 3, bclk_div: 1 });
    assert_eq!(regs, ClockRegs { hclk_div: 3, bclk_div: 1, ..ClockRegs::reset() });
    let before = regs;
    regs.apply(ClockOp::Wait { us: 5, cycles: 160 });
    regs.apply(ClockOp::GateBusClock(true));
    regs.apply(ClockOp::PllSdm { sdmin: 7 });
    regs.apply(ClockOp::EnableRootClocks);
    assert_eq!(regs, before);
    regs.apply(ClockOp::SelectRootPll);
    assert_eq!(regs.root_clk_sel, 2);
    regs.apply(ClockOp::SelectRootPll);
    assert_eq!(regs.root_clk_sel, 2);
    regs.apply(ClockOp::SelectRootRc32);
    assert_eq!(regs.root_clk_sel, 0);
    regs.apply(ClockOp::SetUartDivider { field: 3 });
    assert_eq!((regs.uart_div, regs.uart_clk_enable), (3, true));
    regs.apply(ClockOp::SetSpiDivider { field: 31 });
    assert_eq!((regs.spi_div, regs.spi_clk_enable), (31, true));
}

#[test]
fn frozen_clocks_are_those_that_the_registers_give() {
    for before in [ClockRegs::reset(), running_from_pll()] {
        let (engine, trace, _) = run(pll_160(), before.core_clock, Some(4));
        let plan = engine.plan();
        let clocks = engine.outcome().unwrap().unwrap();
        let mut regs = before;
        regs.apply_all(&trace);
        assert_eq!(regs.root_clk_sel, 2);
        assert_eq!(regs.pll_sel, 2);
        assert_eq!((regs.hclk_div, regs.bclk_div), (0, 1));
        assert_eq!(regs.core_clock, clocks.sysclk());
        assert_eq!(regs.bus_clock(), plan.bus_clk);
        assert_eq!(regs.bus_clock(), 80_000_000);
        assert!(regs.uart_from_pll);
        assert_eq!(160_000_000 / (regs.uart_div as u32 + 1), clocks.uart_clk());
        assert_eq!(regs.bus_clock() / (regs.spi_div as u32 + 1), clocks.spi_clk());
        assert!(regs.pll_power && regs.pll_enable && regs.pll_outputs && regs.crystal_power);
        assert!(regs.rom_wait_state && regs.pka_from_pll);
        assert!(regs.uart_clk_enable && regs.spi_clk_enable);
    }
}

#[test]
fn rc_configuration_leaves_a_running_pll_behind() {
    let cfg = Strict::new().uart_clk(16_000_000).spi_clk(1_000_000);
    let (engine, trace, _) = run(cfg, 160_000_000, None);
    let clocks = engine.outcome().unwrap().unwrap();
    let mut regs = running_from_pll();
    regs.apply_all(&trace);
    assert_eq!(regs.root_clk_sel, 0);
    assert_eq!((regs.hclk_div, regs.bclk_div), (0, 0));
    assert_eq!(regs.core_clock, 32_000_000);
    assert_eq!(regs.bus_clock(), 32_000_000);
    assert!(!regs.uart_from_pll);
    assert_eq!(32_000_000 / (regs.uart_div as u32 + 1), clocks.uart_clk());
    assert_eq!(regs.bus_clock() / (regs.spi_div as u32 + 1), clocks.spi_clk());
    assert!(!regs.pka_from_pll);
}

#[test]
fn pll_is_never_touched_while_it_drives_the_core() {
    for ready_at in [Some(1), Some(77), None] {
        let (_, trace, _) = run(pll_160(), 160_000_000, ready_at);
        let mut regs = running_from_pll();
        for op in trace {
            if op == ClockOp::SelectRootPll {
                assert!(regs.pll_power && regs.pll_enable && regs.pll_outputs);
            } else if touches_pll(&op) {
                assert!(regs.root_clk_sel < 2);
            }
            regs.apply(op);
        }
    }
}

#[test]
fn timeout_leaves_the_core_on_the_rc_oscillator() {
    let (_, trace, _) = run(pll_160(), 160_000_000, None);
    let mut regs = running_from_pll();
    regs.apply_all(&trace);
    assert_eq!(regs.root_clk_sel, 0);
    assert_eq!(regs.core_clock, 32_000_000);
    assert!(regs.crystal_power);
    assert!(!regs.uart_clk_enable && !regs.spi_clk_enable);
}
