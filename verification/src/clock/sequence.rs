//! The clock engine as a step machine.
//!
//! The engine cannot look at the hardware, so it is driven from outside: the
//! caller applies the operations of one step, in order, reads the crystal's
//! ready bit, and asks for the next step. The engine decides what comes next
//! and when the sequence is over.

use vstd::prelude::*;
use crate::clock::ops::{
    CRYSTAL_POLL_SPACING_US, ClockOp, aon_power_on_xtal, crystal_power_ops,
    glb_set_system_clk_pll, glb_set_system_clk_rc32, pds_await_pll_lock, pds_configure_pll,
    pds_power_on_pll, pll_config_ops, pll_lock_ops, pll_power_up_ops, root_switch_ops,
    safe_default_ops, secondary_ops, set_secondary_clocks, wait, wait_op,
};
use crate::clock::{
    ClockPlan, Clocks, RC32M, Strict, pll_params, pll_params_of, resolve,
};
use crate::gpio::ClkCfg;

verus! {

/// Number of looks at the crystal's ready bit before the engine gives up.
pub const CRYSTAL_POLL_ATTEMPTS: u32 = 120;

/// How far the sequence has come. A state is named after what the hardware
/// has been told so far.
#[derive(Clone, Copy, Debug, PartialEq, Eq, Structural)]
pub enum ClockState {
    /// Nothing has been written.
    Unconfigured,
    /// The core runs from the internal RC oscillator.
    SafeDefault,
    /// The crystal has been powered up and is waited for.
    CrystalPowering,
    /// The PLL holds its parameters.
    PllConfiguring,
    /// The PLL has gone through its power-up sequence.
    PllPoweringUp,
    /// The PLL has had its time to lock.
    PllStabilizing,
    /// The core runs from the PLL.
    RootClockSwitched,
    /// The UART and SPI dividers are set: the configuration is final.
    Frozen,
    /// The crystal did not become ready in time. The core runs from the RC
    /// oscillator and no PLL register has been written.
    CrystalTimeout,
}

/// The crystal did not report ready within the attempts allowed. This is
/// the one failure of the sequence that the caller may recover from.
#[derive(Clone, Copy, Debug, PartialEq, Eq, Structural)]
pub struct CrystalTimeout;

/// What a sequencer holds.
pub struct SequencerView {
    /// The plan that is carried out.
    pub plan: ClockPlan,
    /// How far the sequence has come.
    pub state: ClockState,
    /// Looks at the crystal's ready bit that found it clear.
    pub attempts: u32,
    /// Core frequency in Hz that the hardware records at this point.
    pub core_clock: u32,
}

/// The sequencer before its first step.
pub open spec fn initial(plan: ClockPlan, core_clock: u32) -> SequencerView {
    SequencerView { plan, state: ClockState::Unconfigured, attempts: 0, core_clock }
}

/// The operations of the step that `s` takes when the crystal's ready bit
/// reads `crystal_ready`.
pub open spec fn step_ops(s: SequencerView, crystal_ready: bool) -> Seq<ClockOp> {
    match s.state {
        ClockState::Unconfigured => safe_default_ops(s.core_clock),
        ClockState::SafeDefault => if s.plan.uses_pll() {
            crystal_power_ops()
        } else {
            secondary_ops(s.plan)
        },
        ClockState::CrystalPowering => if crystal_ready {
            pll_config_ops(pll_params_of(s.plan.xtal_freq.unwrap()))
        } else if s.attempts + 1 < CRYSTAL_POLL_ATTEMPTS {
            seq![wait_op(CRYSTAL_POLL_SPACING_US, RC32M)]
        } else {
            Seq::empty()
        },
        ClockState::PllConfiguring => pll_power_up_ops(),
        ClockState::PllPoweringUp => pll_lock_ops(),
        ClockState::PllStabilizing => root_switch_ops(s.plan.sysclk),
        ClockState::RootClockSwitched => secondary_ops(s.plan),
        ClockState::Frozen => Seq::empty(),
        ClockState::CrystalTimeout => Seq::empty(),
    }
}

/// The sequencer after the step that `s` takes when the crystal's ready bit
/// reads `crystal_ready`. The bit counts only while the crystal is waited
/// for.
pub open spec fn step_of(s: SequencerView, crystal_ready: bool) -> SequencerView {
    match s.state {
        ClockState::Unconfigured => SequencerView {
            state: ClockState::SafeDefault,
            core_clock: RC32M,
            ..s
        },
        ClockState::SafeDefault => if s.plan.uses_pll() {
            SequencerView { state: ClockState::CrystalPowering, attempts: 0, ..s }
        } else {
            SequencerView { state: ClockState::Frozen, ..s }
        },
        ClockState::CrystalPowering => if crystal_ready {
            SequencerView { state: ClockState::PllConfiguring, ..s }
        } else if s.attempts + 1 < CRYSTAL_POLL_ATTEMPTS {
            SequencerView { attempts: (s.attempts + 1) as u32, ..s }
        } else {
            SequencerView {
                state: ClockState::CrystalTimeout,
                attempts: CRYSTAL_POLL_ATTEMPTS,
                ..s
            }
        },
        ClockState::PllConfiguring => SequencerView { state: ClockState::PllPoweringUp, ..s },
        ClockState::PllPoweringUp => SequencerView { state: ClockState::PllStabilizing, ..s },
        ClockState::PllStabilizing => SequencerView {
            state: ClockState::RootClockSwitched,
            core_clock: s.plan.sysclk.hz(),
            ..s
        },
        ClockState::RootClockSwitched => SequencerView { state: ClockState::Frozen, ..s },
        ClockState::Frozen => s,
        ClockState::CrystalTimeout => s,
    }
}

/// Whether `state` lies on the part of the sequence that only a PLL plan
/// goes through.
pub open spec fn on_pll_path(state: ClockState) -> bool {
    match state {
        ClockState::Unconfigured => false,
        ClockState::SafeDefault => false,
        ClockState::Frozen => false,
        _ => true,
    }
}

/// The clock engine: a plan and how far it has been carried out.
#[derive(Debug)]
pub struct ClockSequencer {
    plan: ClockPlan,
    state: ClockState,
    attempts: u32,
    core_clock: u32,
}

impl View for ClockSequencer {
    type V = SequencerView;

    closed spec fn view(&self) -> SequencerView {
        SequencerView {
            plan: self.plan,
            state: self.state,
            attempts: self.attempts,
            core_clock: self.core_clock,
        }
    }
}

impl Strict {
    /// Starts the clock engine on this configuration, on a core that the
    /// hardware records as running at `core_clock` Hz. The configurator and
    /// the token for the clock registers are used up: there is one
    /// configuration per boot.
    ///
    /// The configuration must be one that [`Strict::check`] accepts. A
    /// configuration that it refuses cannot be reached; there is nothing to
    /// fall back to, and the caller is expected to stop.
    pub fn freeze(self, _clk_cfg: ClkCfg, core_clock: u32) -> (engine: ClockSequencer)
        requires
            resolve(self@) is Ok,
        ensures
            engine@ == initial(resolve(self@).unwrap(), core_clock),
    {
        match self.check() {
            Ok(plan) => ClockSequencer {
                plan,
                state: ClockState::Unconfigured,
                attempts: 0,
                core_clock,
            },
            Err(_) => vstd::pervasive::unreached(),
        }
    }
}

impl ClockSequencer {
    #[verifier::type_invariant]
    spec fn well_formed(self) -> bool {
        &&& self.plan.consistent()
        &&& self.attempts <= CRYSTAL_POLL_ATTEMPTS
        &&& on_pll_path(self.state) ==> self.plan.uses_pll()
    }

    /// How far the sequence has come.
    pub fn state(&self) -> (state: ClockState)
        ensures
            state == self@.state,
    {
        self.state
    }

    /// The plan that is carried out.
    pub fn plan(&self) -> (plan: ClockPlan)
        ensures
            plan == self@.plan,
            plan.consistent(),
    {
        proof {
            use_type_invariant(self);
        }
        self.plan
    }

    /// Core frequency in Hz that the hardware records at this point.
    pub fn core_clock(&self) -> (hz: u32)
        ensures
            hz == self@.core_clock,
    {
        self.core_clock
    }

    /// Looks at the crystal's ready bit that found it clear.
    pub fn attempts(&self) -> (attempts: u32)
        ensures
            attempts == self@.attempts,
            attempts <= CRYSTAL_POLL_ATTEMPTS,
    {
        proof {
            use_type_invariant(self);
        }
        self.attempts
    }

    /// Takes one step and returns its operations, to be applied in order
    /// before the next step is asked for. `crystal_ready` is the crystal's
    /// ready bit as read after the operations of the step before; it counts
    /// only while the crystal is waited for.
    ///
    /// While the crystal is waited for, a clear bit costs one attempt and a
    /// wait of 10 microseconds; the last attempt allowed ends the sequence in
    /// [`ClockState::CrystalTimeout`] instead. Once the sequence is over, a
    /// step changes nothing and asks for nothing.
    pub fn step(&mut self, crystal_ready: bool) -> (ops: Vec<ClockOp>)
        ensures
            final(self)@ == step_of(old(self)@, crystal_ready),
            ops@ == step_ops(old(self)@, crystal_ready),
    {
        proof {
            use_type_invariant(&*self);
        }
        let plan = self.plan;
        let attempts = self.attempts;
        let core_clock = self.core_clock;
        match self.state {
            ClockState::Unconfigured => {
                let ops = glb_set_system_clk_rc32(core_clock);
                *self = ClockSequencer {
                    plan,
                    state: ClockState::SafeDefault,
                    attempts,
                    core_clock: RC32M,
                };
                ops
            },
            ClockState::SafeDefault => {
                if plan.xtal_freq.is_some() {
                    let ops = aon_power_on_xtal();
                    *self = ClockSequencer {
                        plan,
                        state: ClockState::CrystalPowering,
                        attempts: 0,
                        core_clock,
                    };
                    ops
                } else {
                    let ops = set_secondary_clocks(&plan);
                    *self = ClockSequencer { plan, state: ClockState::Frozen, attempts, core_clock };
                    ops
                }
            },
            ClockState::CrystalPowering => {
                if crystal_ready {
                    let xtal = match plan.xtal_freq {
                        Some(f) => f,
                        None => 0,
                    };
                    let ops = match pll_params(xtal) {
                        Some(params) => pds_configure_pll(&params),
                        None => Vec::new(),
                    };
                    *self = ClockSequencer {
                        plan,
                        state: ClockState::PllConfiguring,
                        attempts,
                        core_clock,
                    };
                    ops
                } else if attempts + 1 < CRYSTAL_POLL_ATTEMPTS {
                    let mut ops: Vec<ClockOp> = Vec::new();
                    ops.push(wait(CRYSTAL_POLL_SPACING_US, RC32M));
                    assert(ops@ =~= seq![wait_op(CRYSTAL_POLL_SPACING_US, RC32M)]);
                    *self = ClockSequencer {
                        plan,
                        state: ClockState::CrystalPowering,
                        attempts: attempts + 1,
                        core_clock,
                    };
                    ops
                } else {
                    *self = ClockSequencer {
                        plan,
                        state: ClockState::CrystalTimeout,
                        attempts: CRYSTAL_POLL_ATTEMPTS,
                        core_clock,
                    };
                    Vec::new()
                }
            },
            ClockState::PllConfiguring => {
                let ops = pds_power_on_pll();
                *self = ClockSequencer {
                    plan,
                    state: ClockState::PllPoweringUp,
                    attempts,
                    core_clock,
                };
                ops
            },
            ClockState::PllPoweringUp => {
                let ops = pds_await_pll_lock();
                *self = ClockSequencer {
                    plan,
                    state: ClockState::PllStabilizing,
                    attempts,
                    core_clock,
                };
                ops
            },
            ClockState::PllStabilizing => {
                let ops = glb_set_system_clk_pll(plan.sysclk);
                *self = ClockSequencer {
                    plan,
                    state: ClockState::RootClockSwitched,
                    attempts,
                    core_clock: plan.sysclk.hertz(),
                };
                ops
            },
            ClockState::RootClockSwitched => {
                let ops = set_secondary_clocks(&plan);
                *self = ClockSequencer { plan, state: ClockState::Frozen, attempts, core_clock };
                ops
            },
            ClockState::Frozen => Vec::new(),
            ClockState::CrystalTimeout => Vec::new(),
        }
    }

    /// Takes one step for each of `readings`, front to back, and returns the
    /// operations of all of them in order. The readings are those of the
    /// crystal's ready bit, one per step; a recorded or made-up sequence of
    /// them replays what the engine would ask of the hardware.
    pub fn replay(&mut self, readings: &[bool]) -> (ops: Vec<ClockOp>)
        ensures
            final(self)@ == run(old(self)@, readings@),
            ops@ == trace(old(self)@, readings@),
    {
        let mut ops: Vec<ClockOp> = Vec::new();
        let mut i: usize = 0;
        proof {
            assert(readings@.subrange(0, readings@.len() as int) =~= readings@);
        }
        while i < readings.len()
            invariant
                i <= readings.len(),
                run(self@, readings@.subrange(i as int, readings@.len() as int)) == run(
                    old(self)@,
                    readings@,
                ),
                ops@ + trace(self@, readings@.subrange(i as int, readings@.len() as int))
                    == trace(old(self)@, readings@),
            decreases readings.len() - i,
        {
            let ghost before = self@;
            let ghost rest = readings@.subrange(i as int, readings@.len() as int);
            let ghost done = ops@;
            let mut next = self.step(readings[i]);
            ops.append(&mut next);
            i += 1;
            proof {
                assert(rest[0] == readings@[i - 1]);
                assert(rest.drop_first() =~= readings@.subrange(
                    i as int,
                    readings@.len() as int,
                ));
                assert(ops@ + trace(self@, rest.drop_first()) =~= done + trace(before, rest));
            }
        }
        proof {
            assert(readings@.subrange(i as int, readings@.len() as int).len() == 0);
            assert(ops@ + Seq::<ClockOp>::empty() =~= ops@);
        }
        ops
    }

    /// What the sequence has ended in: `None` while steps remain, the frozen
    /// clocks of the plan once the state is [`ClockState::Frozen`], the
    /// timeout once it is [`ClockState::CrystalTimeout`].
    pub fn outcome(&self) -> (outcome: Option<Result<Clocks, CrystalTimeout>>)
        ensures
            self@.state == ClockState::Frozen <==> outcome matches Some(Ok(_)),
            self@.state == ClockState::CrystalTimeout <==> outcome matches Some(Err(_)),
            outcome matches Some(Ok(clocks)) ==> clocks@ == self@.plan.clocks(),
    {
        match self.state {
            ClockState::Frozen => Some(Ok(self.plan.to_clocks())),
            ClockState::CrystalTimeout => Some(Err(CrystalTimeout)),
            _ => None,
        }
    }
}

/// The sequencer after one step for each of `readings`, front to back.
pub open spec fn run(s: SequencerView, readings: Seq<bool>) -> SequencerView
    decreases readings.len(),
{
    if readings.len() == 0 {
        s
    } else {
        run(step_of(s, readings[0]), readings.drop_first())
    }
}

/// The operations of those steps, in the order in which they are applied.
pub open spec fn trace(s: SequencerView, readings: Seq<bool>) -> Seq<ClockOp>
    decreases readings.len(),
{
    if readings.len() == 0 {
        Seq::empty()
    } else {
        step_ops(s, readings[0]) + trace(step_of(s, readings[0]), readings.drop_first())
    }
}

/// `count` readings of a ready bit that stays clear.
pub open spec fn never_ready(count: nat) -> Seq<bool> {
    Seq::new(count, |i: int| false)
}

/// Whether no operation in `ops` touches the PLL.
pub open spec fn pll_untouched(ops: Seq<ClockOp>) -> bool {
    forall|j: int| 0 <= j < ops.len() ==> !(#[trigger] ops[j]).touches_pll()
}

/// Whether every divider write in `ops` holds the divisor of `plan` for its
/// clock, less one.
pub open spec fn dividers_match(plan: ClockPlan, ops: Seq<ClockOp>) -> bool {
    forall|j: int|
        0 <= j < ops.len() ==> match #[trigger] ops[j] {
            ClockOp::SetUartDivider { field } => field + 1 == plan.uart_div,
            ClockOp::SetSpiDivider { field } => field + 1 == plan.spi_div,
            _ => true,
        }
}

/// The safe default comes first. Whatever the ready bit reads, the second
/// operation of a run selects the RC oscillator, and every operation that
/// touches the PLL comes after it.
pub proof fn lemma_safe_default_first(
    plan: ClockPlan,
    core_clock: u32,
    readings: Seq<bool>,
    j: int,
)
    requires
        0 <= j < trace(initial(plan, core_clock), readings).len(),
        trace(initial(plan, core_clock), readings)[j].touches_pll(),
    ensures
        trace(initial(plan, core_clock), readings)[1] == ClockOp::SelectRootRc32,
        1 < j,
{
    let s = initial(plan, core_clock);
    let head = safe_default_ops(core_clock);
    let tail = trace(step_of(s, readings[0]), readings.drop_first());
    assert(trace(s, readings) == head + tail);
    assert(head.len() == 11);
    assert(head[0] == ClockOp::EnableRootClocks);
    assert(head[1] == ClockOp::SelectRootRc32);
    assert((head + tail)[0] == head[0]);
    assert((head + tail)[1] == head[1]);
}

/// Until the crystal has reported ready, no step touches the PLL: a run in
/// which the ready bit never reads set writes no PLL register, and ends
/// before the PLL or without it.
pub proof fn lemma_pll_waits_for_crystal(s: SequencerView, readings: Seq<bool>)
    requires
        s.state == ClockState::Unconfigured || s.state == ClockState::SafeDefault || s.state
            == ClockState::CrystalPowering || s.state == ClockState::CrystalTimeout || (s.state
            == ClockState::Frozen && !s.plan.uses_pll()),
        forall|i: int| 0 <= i < readings.len() ==> !readings[i],
    ensures
        pll_untouched(trace(s, readings)),
        !(run(s, readings).state == ClockState::Frozen && s.plan.uses_pll()),
        run(s, readings).plan == s.plan,
    decreases readings.len(),
{
    if readings.len() > 0 {
        let head = step_ops(s, readings[0]);
        let next = step_of(s, readings[0]);
        let rest = readings.drop_first();
        assert(pll_untouched(head));
        lemma_pll_waits_for_crystal(next, rest);
        let tail = trace(next, rest);
        assert forall|j: int| 0 <= j < (head + tail).len() implies !(#[trigger] (head + tail)[j])
            .touches_pll() by {
            if j < head.len() {
                assert((head + tail)[j] == head[j]);
            } else {
                assert((head + tail)[j] == tail[j - head.len()]);
            }
        }
    }
}

/// The crystal is given exactly the attempts allowed. From the moment it is
/// powered up, `count` looks that find the ready bit clear leave the engine
/// waiting while `count` is under the limit, each followed by one wait of 10
/// microseconds; the look that reaches the limit ends the sequence in a
/// timeout, with no further wait.
pub proof fn lemma_crystal_timeout(s: SequencerView, count: nat)
    requires
        s.state == ClockState::CrystalPowering,
        s.attempts < CRYSTAL_POLL_ATTEMPTS,
        s.attempts + count <= CRYSTAL_POLL_ATTEMPTS,
    ensures
        run(s, never_ready(count)).attempts == s.attempts + count,
        run(s, never_ready(count)).state == if s.attempts + count < CRYSTAL_POLL_ATTEMPTS {
            ClockState::CrystalPowering
        } else {
            ClockState::CrystalTimeout
        },
        trace(s, never_ready(count)) == Seq::new(
            if s.attempts + count < CRYSTAL_POLL_ATTEMPTS {
                count
            } else {
                (count - 1) as nat
            },
            |i: int| wait_op(CRYSTAL_POLL_SPACING_US, RC32M),
        ),
    decreases count,
{
    let readings = never_ready(count);
    if count > 0 {
        let next = step_of(s, false);
        let rest = never_ready((count - 1) as nat);
        assert(readings.drop_first() =~= rest);
        assert(readings[0] == false);
        if s.attempts + 1 < CRYSTAL_POLL_ATTEMPTS {
            lemma_crystal_timeout(next, (count - 1) as nat);
            assert(trace(s, readings) =~= Seq::new(
                if s.attempts + count < CRYSTAL_POLL_ATTEMPTS {
                    count
                } else {
                    (count - 1) as nat
                },
                |i: int| wait_op(CRYSTAL_POLL_SPACING_US, RC32M),
            ));
        } else {
            assert(count == 1);
            assert(rest.len() == 0);
            assert(run(next, rest) == next);
            assert(trace(next, rest) =~= Seq::empty());
            assert(step_ops(s, false) =~= Seq::empty());
            assert(trace(s, readings) =~= Seq::empty());
        }
    } else {
        assert(trace(s, readings) =~= Seq::empty());
    }
}

/// Once the sequence is over, in the frozen state or in a timeout, no step
/// changes the engine or asks for an operation.
pub proof fn lemma_finished_stays(s: SequencerView, readings: Seq<bool>)
    requires
        s.state == ClockState::Frozen || s.state == ClockState::CrystalTimeout,
    ensures
        run(s, readings) == s,
        trace(s, readings) == Seq::<ClockOp>::empty(),
    decreases readings.len(),
{
    if readings.len() > 0 {
        lemma_finished_stays(s, readings.drop_first());
        assert(trace(s, readings) =~= Seq::empty());
    }
}

/// The dividers that a run programs are the exact ones: every write to the
/// UART or SPI divider holds the plan's divisor less one, and that divisor
/// times the clock it gives is the clock it divides.
pub proof fn lemma_programmed_divisors_are_exact(s: SequencerView, readings: Seq<bool>)
    requires
        s.plan.consistent(),
    ensures
        dividers_match(s.plan, trace(s, readings)),
        s.plan.uart_src == s.plan.uart_div * s.plan.uart_clk,
        s.plan.bus_clk == s.plan.spi_div * s.plan.spi_clk,
    decreases readings.len(),
{
    if readings.len() > 0 {
        let head = step_ops(s, readings[0]);
        let next = step_of(s, readings[0]);
        let rest = readings.drop_first();
        assert(dividers_match(s.plan, head));
        lemma_programmed_divisors_are_exact(next, rest);
        let tail = trace(next, rest);
        assert forall|j: int| 0 <= j < (head + tail).len() implies match #[trigger] (head
            + tail)[j] {
            ClockOp::SetUartDivider { field } => field + 1 == s.plan.uart_div,
            ClockOp::SetSpiDivider { field } => field + 1 == s.plan.spi_div,
            _ => true,
        } by {
            if j < head.len() {
                assert((head + tail)[j] == head[j]);
            } else {
                assert((head + tail)[j] == tail[j - head.len()]);
            }
        }
    }
}

/// A run of at least one step is its first step followed by the rest.
pub proof fn lemma_first_step(s: SequencerView, readings: Seq<bool>)
    requires
        readings.len() > 0,
    ensures
        run(s, readings) == run(step_of(s, readings[0]), readings.drop_first()),
        trace(s, readings) == step_ops(s, readings[0]) + trace(
            step_of(s, readings[0]),
            readings.drop_first(),
        ),
{
}

/// A run of no step changes nothing and asks for nothing.
pub proof fn lemma_no_step(s: SequencerView, readings: Seq<bool>)
    requires
        readings.len() == 0,
    ensures
        run(s, readings) == s,
        trace(s, readings) == Seq::<ClockOp>::empty(),
{
}

proof fn lemma_concat_two(a: Seq<ClockOp>, b: Seq<ClockOp>)
    ensures
        a + (b + Seq::<ClockOp>::empty()) == a + b,
{
    assert(a + (b + Seq::<ClockOp>::empty()) =~= a + b);
}

proof fn lemma_concat_seven(
    a: Seq<ClockOp>,
    b: Seq<ClockOp>,
    c: Seq<ClockOp>,
    d: Seq<ClockOp>,
    e: Seq<ClockOp>,
    f: Seq<ClockOp>,
    g: Seq<ClockOp>,
)
    ensures
        a + (b + (c + (d + (e + (f + (g + Seq::<ClockOp>::empty())))))) == a + b + c + d + e + f
            + g,
{
    assert(a + (b + (c + (d + (e + (f + (g + Seq::<ClockOp>::empty())))))) =~= a + b + c + d + e
        + f + g);
}

/// Without a PLL the sequence is two steps long: the safe default, then the
/// UART and SPI clocks.
pub proof fn lemma_rc_sequence(plan: ClockPlan, core_clock: u32, readings: Seq<bool>)
    requires
        !plan.uses_pll(),
        readings.len() == 2,
    ensures
        run(initial(plan, core_clock), readings).state == ClockState::Frozen,
        trace(initial(plan, core_clock), readings) == safe_default_ops(core_clock) + secondary_ops(
            plan,
        ),
{
    let s0 = initial(plan, core_clock);
    let s1 = step_of(s0, readings[0]);
    let r1 = readings.drop_first();
    let s2 = step_of(s1, r1[0]);
    let r2 = r1.drop_first();
    lemma_first_step(s0, readings);
    lemma_first_step(s1, r1);
    lemma_no_step(s2, r2);
    lemma_concat_two(safe_default_ops(core_clock), secondary_ops(plan));
}

/// With a PLL and a crystal that is ready at the first look, the sequence is
/// seven steps long and its operations are, in this order: the safe default,
/// the crystal, the PLL parameters, the PLL power-up, the wait for lock, the
/// switch of the root clock, and the UART and SPI clocks.
pub proof fn lemma_pll_sequence(plan: ClockPlan, core_clock: u32, readings: Seq<bool>)
    requires
        plan.uses_pll(),
        readings.len() == 7,
        readings[2],
    ensures
        run(initial(plan, core_clock), readings).state == ClockState::Frozen,
        run(initial(plan, core_clock), readings).core_clock == plan.sysclk.hz(),
        trace(initial(plan, core_clock), readings) == safe_default_ops(core_clock)
            + crystal_power_ops() + pll_config_ops(pll_params_of(plan.xtal_freq.unwrap()))
            + pll_power_up_ops() + pll_lock_ops() + root_switch_ops(plan.sysclk) + secondary_ops(
            plan,
        ),
{
    let s0 = initial(plan, core_clock);
    let r0 = readings;
    let s1 = step_of(s0, r0[0]);
    let r1 = r0.drop_first();
    let s2 = step_of(s1, r1[0]);
    let r2 = r1.drop_first();
    assert(r2[0] == readings[2]);
    let s3 = step_of(s2, r2[0]);
    let r3 = r2.drop_first();
    let s4 = step_of(s3, r3[0]);
    let r4 = r3.drop_first();
    let s5 = step_of(s4, r4[0]);
    let r5 = r4.drop_first();
    let s6 = step_of(s5, r5[0]);
    let r6 = r5.drop_first();
    let s7 = step_of(s6, r6[0]);
    let r7 = r6.drop_first();
    lemma_first_step(s0, r0);
    lemma_first_step(s1, r1);
    lemma_first_step(s2, r2);
    lemma_first_step(s3, r3);
    lemma_first_step(s4, r4);
    lemma_first_step(s5, r5);
    lemma_first_step(s6, r6);
    lemma_no_step(s7, r7);
    lemma_concat_seven(
        safe_default_ops(core_clock),
        crystal_power_ops(),
        pll_config_ops(pll_params_of(plan.xtal_freq.unwrap())),
        pll_power_up_ops(),
        pll_lock_ops(),
        root_switch_ops(plan.sysclk),
        secondary_ops(plan),
    );
}

} // verus!
