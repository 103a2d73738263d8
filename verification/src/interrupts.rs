//! Interrupt management: the interrupt table, the controller's enable and
//! pending bytes, the installation steps and the routing of a trap to its
//! handler.
//!
//! The functions here decide; they touch no register. Each returns the write
//! to make, the steps to run or the handler to call.

use vstd::prelude::*;

verus! {

/// First interrupt number that belongs to a peripheral.
pub const IRQ_NUM_BASE: u32 = 16;

/// Base address of the interrupt controller of hart 0.
pub const CLIC_HART0_ADDR: u32 = 0x0280_0000;

/// Offset of the enable region: one byte per interrupt number.
pub const CLIC_INTIE: u32 = 0x400;

/// Offset of the pending region: one byte per interrupt number.
pub const CLIC_INTIP: u32 = 0x000;

/// Number of 32-bit words in each region that installation clears.
pub const CLIC_REGION_WORDS: u32 = 24;

/// Interrupt number of the GPIO interrupt.
pub const GPIO_IRQ: u32 = IRQ_NUM_BASE + 44;

/// Interrupt number of the timer channel 0 interrupt.
pub const TIMER_CH0_IRQ: u32 = IRQ_NUM_BASE + 36;

/// Interrupt number of the timer channel 1 interrupt.
pub const TIMER_CH1_IRQ: u32 = IRQ_NUM_BASE + 37;

/// Interrupt number of the watchdog interrupt.
pub const WATCHDOG_IRQ: u32 = IRQ_NUM_BASE + 38;

/// Available interrupts.
#[derive(Clone, Copy, Debug, PartialEq, Eq, Structural)]
pub enum Interrupt {
    /// Stands for every interrupt number outside the table. It has no
    /// interrupt number of its own.
    Unknown,
    /// GPIO interrupt
    Gpio,
    /// Timer channel 0 interrupt
    TimerCh0,
    /// Timer channel 1 interrupt
    TimerCh1,
    /// Watchdog timer interrupt
    Watchdog,
}

impl Interrupt {
    /// The interrupt number of a recognized interrupt, `None` for `Unknown`.
    pub open spec fn irq_number(self) -> Option<u32> {
        match self {
            Interrupt::Unknown => None,
            Interrupt::Gpio => Some(GPIO_IRQ),
            Interrupt::TimerCh0 => Some(TIMER_CH0_IRQ),
            Interrupt::TimerCh1 => Some(TIMER_CH1_IRQ),
            Interrupt::Watchdog => Some(WATCHDOG_IRQ),
        }
    }

    /// The interrupt that the table lists under `irq`, `Unknown` if none.
    pub open spec fn of_irq(irq: u32) -> Interrupt {
        if irq == GPIO_IRQ {
            Interrupt::Gpio
        } else if irq == TIMER_CH0_IRQ {
            Interrupt::TimerCh0
        } else if irq == TIMER_CH1_IRQ {
            Interrupt::TimerCh1
        } else if irq == WATCHDOG_IRQ {
            Interrupt::Watchdog
        } else {
            Interrupt::Unknown
        }
    }

    /// Interrupt number of a recognized interrupt.
    pub fn to_irq(&self) -> (irq: u32)
        requires
            *self != Interrupt::Unknown,
        ensures
            self.irq_number() == Some(irq),
    {
        match self {
            Interrupt::Unknown => 0,
            Interrupt::Gpio => GPIO_IRQ,
            Interrupt::TimerCh0 => TIMER_CH0_IRQ,
            Interrupt::TimerCh1 => TIMER_CH1_IRQ,
            Interrupt::Watchdog => WATCHDOG_IRQ,
        }
    }

    /// Interrupt number, or `None` for `Unknown`, which has none.
    pub fn checked_irq(&self) -> (irq: Option<u32>)
        ensures
            irq == self.irq_number(),
    {
        match self {
            Interrupt::Unknown => None,
            Interrupt::Gpio => Some(GPIO_IRQ),
            Interrupt::TimerCh0 => Some(TIMER_CH0_IRQ),
            Interrupt::TimerCh1 => Some(TIMER_CH1_IRQ),
            Interrupt::Watchdog => Some(WATCHDOG_IRQ),
        }
    }

    /// Interrupt listed under the number `irq`, `Unknown` for any other number.
    pub fn from(irq: u32) -> (interrupt: Interrupt)
        ensures
            interrupt == Interrupt::of_irq(irq),
    {
        if irq == GPIO_IRQ {
            Interrupt::Gpio
        } else if irq == TIMER_CH0_IRQ {
            Interrupt::TimerCh0
        } else if irq == TIMER_CH1_IRQ {
            Interrupt::TimerCh1
        } else if irq == WATCHDOG_IRQ {
            Interrupt::Watchdog
        } else {
            Interrupt::Unknown
        }
    }
}

/// Mapping a recognized interrupt to its number and back gives the same
/// interrupt.
pub proof fn lemma_irq_round_trip(interrupt: Interrupt)
    requires
        interrupt != Interrupt::Unknown,
    ensures
        interrupt.irq_number() is Some,
        Interrupt::of_irq(interrupt.irq_number().unwrap()) == interrupt,
{
}

/// A number maps to a recognized interrupt only if it is that interrupt's own
/// number: no two numbers share an interrupt, and every number outside the
/// table maps to `Unknown`.
pub proof fn lemma_irq_table_is_exact(irq: u32)
    ensures
        Interrupt::of_irq(irq) != Interrupt::Unknown ==> Interrupt::of_irq(irq).irq_number()
            == Some(irq),
        Interrupt::of_irq(irq) == Interrupt::Unknown <==> (irq != GPIO_IRQ && irq != TIMER_CH0_IRQ
            && irq != TIMER_CH1_IRQ && irq != WATCHDOG_IRQ),
        Interrupt::of_irq(irq) == Interrupt::Unknown ==> Interrupt::of_irq(irq).irq_number()
            is None,
{
}

/// Two recognized interrupts with the same number are the same interrupt.
pub proof fn lemma_irq_numbers_differ(a: Interrupt, b: Interrupt)
    requires
        a != Interrupt::Unknown,
        a.irq_number() == b.irq_number(),
    ensures
        a == b,
{
}

/// A single byte write to the interrupt controller.
#[derive(Clone, Copy, Debug, PartialEq, Eq, Structural)]
pub struct ClicWrite {
    /// Address of the byte.
    pub addr: u32,
    /// Value to store there.
    pub value: u8,
}

/// Address of the enable byte of interrupt number `irq`.
pub open spec fn enable_addr(irq: u32) -> int {
    CLIC_HART0_ADDR + CLIC_INTIE + irq
}

/// Address of the pending byte of interrupt number `irq`.
pub open spec fn pending_addr(irq: u32) -> int {
    CLIC_HART0_ADDR + CLIC_INTIP + irq
}

/// The write that enables `interrupt`: 1 to its enable byte.
pub fn enable_interrupt(interrupt: Interrupt) -> (write: ClicWrite)
    requires
        interrupt != Interrupt::Unknown,
    ensures
        write.addr == enable_addr(interrupt.irq_number().unwrap()),
        write.value == 1,
{
    let irq = interrupt.to_irq();
    ClicWrite { addr: CLIC_HART0_ADDR + CLIC_INTIE + irq, value: 1 }
}

/// The write that disables `interrupt`: 0 to its enable byte.
pub fn disable_interrupt(interrupt: Interrupt) -> (write: ClicWrite)
    requires
        interrupt != Interrupt::Unknown,
    ensures
        write.addr == enable_addr(interrupt.irq_number().unwrap()),
        write.value == 0,
{
    let irq = interrupt.to_irq();
    ClicWrite { addr: CLIC_HART0_ADDR + CLIC_INTIE + irq, value: 0 }
}

/// The write that acknowledges `interrupt` at the controller: 0 to its
/// pending byte. The peripheral usually needs clearing as well.
pub fn clear_interrupt(interrupt: Interrupt) -> (write: ClicWrite)
    requires
        interrupt != Interrupt::Unknown,
    ensures
        write.addr == pending_addr(interrupt.irq_number().unwrap()),
        write.value == 0,
{
    let irq = interrupt.to_irq();
    ClicWrite { addr: CLIC_HART0_ADDR + CLIC_INTIP + irq, value: 0 }
}

/// One step of installing the trap vector.
#[derive(Clone, Copy, Debug, PartialEq, Eq, Structural)]
pub enum SetupStep {
    /// Stop taking interrupts globally.
    DisableInterrupts,
    /// Store the value in the trap-vector base register, in direct mode.
    WriteTrapVector(usize),
    /// Store 0 in the 32-bit word of the controller at this address.
    ClearWord(u32),
    /// Take interrupts again.
    EnableInterrupts,
}

/// The installation steps for a trap entry stub at `trap_entry`, in order:
/// interrupts off, the vector, every word of the enable region, every word of
/// the pending region, interrupts on.
pub open spec fn setup_steps(trap_entry: usize) -> Seq<SetupStep> {
    seq![SetupStep::DisableInterrupts, SetupStep::WriteTrapVector(trap_entry | 2)] + Seq::new(
        CLIC_REGION_WORDS as nat,
        |i: int| SetupStep::ClearWord((CLIC_HART0_ADDR + CLIC_INTIE + 4 * i) as u32),
    ) + Seq::new(
        CLIC_REGION_WORDS as nat,
        |i: int| SetupStep::ClearWord((CLIC_HART0_ADDR + CLIC_INTIP + 4 * i) as u32),
    ) + seq![SetupStep::EnableInterrupts]
}

/// Steps that install the trap entry stub at address `trap_entry` and leave
/// every interrupt disabled and not pending. They run once, at boot, before
/// any interrupt is enabled.
pub fn _setup_interrupts(trap_entry: usize) -> (steps: Vec<SetupStep>)
    ensures
        steps@ == setup_steps(trap_entry),
{
    let mut steps: Vec<SetupStep> = Vec::new();
    steps.push(SetupStep::DisableInterrupts);
    steps.push(SetupStep::WriteTrapVector(trap_entry | 2));
    let ghost head = steps@;
    let mut i: u32 = 0;
    while i < CLIC_REGION_WORDS
        invariant
            i <= CLIC_REGION_WORDS,
            steps@ == head + Seq::new(
                i as nat,
                |k: int| SetupStep::ClearWord((CLIC_HART0_ADDR + CLIC_INTIE + 4 * k) as u32),
            ),
        decreases CLIC_REGION_WORDS - i,
    {
        steps.push(SetupStep::ClearWord(CLIC_HART0_ADDR + CLIC_INTIE + 4 * i));
        i += 1;
        assert(steps@ =~= head + Seq::new(
            i as nat,
            |k: int| SetupStep::ClearWord((CLIC_HART0_ADDR + CLIC_INTIE + 4 * k) as u32),
        ));
    }
    let ghost enabled = steps@;
    let mut j: u32 = 0;
    while j < CLIC_REGION_WORDS
        invariant
            j <= CLIC_REGION_WORDS,
            steps@ == enabled + Seq::new(
                j as nat,
                |k: int| SetupStep::ClearWord((CLIC_HART0_ADDR + CLIC_INTIP + 4 * k) as u32),
            ),
        decreases CLIC_REGION_WORDS - j,
    {
        steps.push(SetupStep::ClearWord(CLIC_HART0_ADDR + CLIC_INTIP + 4 * j));
        j += 1;
        assert(steps@ =~= enabled + Seq::new(
            j as nat,
            |k: int| SetupStep::ClearWord((CLIC_HART0_ADDR + CLIC_INTIP + 4 * k) as u32),
        ));
    }
    steps.push(SetupStep::EnableInterrupts);
    assert(steps@ =~= setup_steps(trap_entry));
    steps
}

/// Installation keeps interrupts off from its first step to its last, and
/// clears the word that holds the enable byte and the word that holds the
/// pending byte of every recognized interrupt.
pub proof fn lemma_setup_masks_every_interrupt(trap_entry: usize, interrupt: Interrupt)
    requires
        interrupt != Interrupt::Unknown,
    ensures
        setup_steps(trap_entry).len() == 2 * CLIC_REGION_WORDS + 3,
        setup_steps(trap_entry).first() == SetupStep::DisableInterrupts,
        setup_steps(trap_entry).last() == SetupStep::EnableInterrupts,
        forall|k: int|
            0 < k < setup_steps(trap_entry).len() - 1 ==> #[trigger] setup_steps(trap_entry)[k]
                != SetupStep::EnableInterrupts,
        exists|k: int|
            0 < k < setup_steps(trap_entry).len() - 1 && #[trigger] setup_steps(trap_entry)[k]
                == SetupStep::ClearWord(
                (enable_addr(interrupt.irq_number().unwrap()) / 4 * 4) as u32,
            ),
        exists|k: int|
            0 < k < setup_steps(trap_entry).len() - 1 && #[trigger] setup_steps(trap_entry)[k]
                == SetupStep::ClearWord(
                (pending_addr(interrupt.irq_number().unwrap()) / 4 * 4) as u32,
            ),
{
    let steps = setup_steps(trap_entry);
    let irq = interrupt.irq_number().unwrap();
    let word = irq as int / 4;
    assert(steps[2 + word] == SetupStep::ClearWord(
        (CLIC_HART0_ADDR + CLIC_INTIE + 4 * word) as u32,
    ));
    assert(steps[2 + CLIC_REGION_WORDS + word] == SetupStep::ClearWord(
        (CLIC_HART0_ADDR + CLIC_INTIP + 4 * word) as u32,
    ));
}

/// Registers saved by the trap entry stub, in the order it stores them.
#[derive(Clone, Copy, Debug, Default)]
pub struct TrapFrame {
    pub ra: usize,
    pub t0: usize,
    pub t1: usize,
    pub t2: usize,
    pub t3: usize,
    pub t4: usize,
    pub t5: usize,
    pub t6: usize,
    pub a0: usize,
    pub a1: usize,
    pub a2: usize,
    pub a3: usize,
    pub a4: usize,
    pub a5: usize,
    pub a6: usize,
    pub a7: usize,
    pub s0: usize,
    pub s1: usize,
    pub s2: usize,
    pub s3: usize,
    pub s4: usize,
    pub s5: usize,
    pub s6: usize,
    pub s7: usize,
    pub s8: usize,
    pub s9: usize,
    pub s10: usize,
    pub s11: usize,
    pub gp: usize,
    pub tp: usize,
    pub sp: usize,
}

/// The handler that a trap is handed to.
#[derive(Clone, Copy, Debug, PartialEq, Eq, Structural)]
pub enum TrapHandler {
    /// The generic exception handler: synchronous exceptions and every
    /// interrupt that the table does not list.
    Exception,
    /// The GPIO handler.
    Gpio,
    /// The handler of timer channel 0.
    TimerCh0,
    /// The handler of timer channel 1.
    TimerCh1,
    /// The watchdog handler.
    Watchdog,
}

impl TrapHandler {
    /// The handler that serves `interrupt`; the generic one for `Unknown`.
    pub open spec fn serving(interrupt: Interrupt) -> TrapHandler {
        match interrupt {
            Interrupt::Unknown => TrapHandler::Exception,
            Interrupt::Gpio => TrapHandler::Gpio,
            Interrupt::TimerCh0 => TrapHandler::TimerCh0,
            Interrupt::TimerCh1 => TrapHandler::TimerCh1,
            Interrupt::Watchdog => TrapHandler::Watchdog,
        }
    }
}

/// Whether a trap-cause value stands for an interrupt: its top bit is set.
pub open spec fn cause_is_interrupt(cause: usize) -> bool {
    cause > usize::MAX / 2
}

/// The code of a trap-cause value: the value without its top bit.
pub open spec fn cause_code(cause: usize) -> usize {
    if cause > usize::MAX / 2 {
        (cause - usize::MAX / 2 - 1) as usize
    } else {
        cause
    }
}

/// The handler for a trap with the cause `cause`.
pub open spec fn handler_of(cause: usize) -> TrapHandler {
    if !cause_is_interrupt(cause) || cause_code(cause) < IRQ_NUM_BASE {
        TrapHandler::Exception
    } else {
        TrapHandler::serving(Interrupt::of_irq((cause_code(cause) % 256) as u32))
    }
}

/// Calls `Mcause::is_exception` of the `riscv` crate on the register value
/// `cause`. Not proved: that the call answers `true` exactly when the top bit
/// of `cause` is clear. The crate reads bit 31 on a 32-bit RISC-V and bit 63
/// elsewhere, so this is claimed for those targets and for 64-bit hosts.
#[verifier::external_body]
fn mcause_is_exception(cause: usize) -> (exception: bool)
    ensures
        exception == !cause_is_interrupt(cause),
{
    riscv::register::mcause::Mcause::from_bits(cause).is_exception()
}

/// Calls `Mcause::code` of the `riscv` crate on the register value `cause`.
/// Not proved: that the call returns `cause` with its top bit cleared, on the
/// same targets as above.
#[verifier::external_body]
fn mcause_code(cause: usize) -> (code: usize)
    ensures
        code == cause_code(cause),
{
    riscv::register::mcause::Mcause::from_bits(cause).code()
}

/// What a trap-cause value says: the kind of trap and its code.
#[derive(Clone, Copy, Debug, PartialEq, Eq, Structural)]
pub enum TrapCause {
    /// A synchronous exception with this code.
    Exception(usize),
    /// An interrupt with this code.
    Interrupt(usize),
}

/// What the trap-cause value `cause` says.
pub open spec fn cause_of(cause: usize) -> TrapCause {
    if cause_is_interrupt(cause) {
        TrapCause::Interrupt(cause_code(cause))
    } else {
        TrapCause::Exception(cause_code(cause))
    }
}

/// Takes the value `cause` of the trap-cause register apart: the top bit
/// tells an interrupt from an exception, the rest is the code.
pub fn decode_cause(cause: usize) -> (decoded: TrapCause)
    ensures
        decoded == cause_of(cause),
{
    let code = mcause_code(cause);
    if mcause_is_exception(cause) {
        TrapCause::Exception(code)
    } else {
        TrapCause::Interrupt(code)
    }
}

/// Decides which handler a trap goes to, from the value `cause` of the
/// trap-cause register. An exception goes to the generic handler. An
/// interrupt goes to the handler of the interrupt that the table lists under
/// the low byte of its code, and to the generic handler when the code lies
/// below the peripheral range or the table lists nothing: no trap is
/// dropped.
pub fn start_trap_rust_hal(cause: usize) -> (handler: TrapHandler)
    ensures
        handler == handler_of(cause),
{
    match decode_cause(cause) {
        TrapCause::Exception(_) => TrapHandler::Exception,
        TrapCause::Interrupt(code) => {
            if code < IRQ_NUM_BASE as usize {
                TrapHandler::Exception
            } else {
                assert(code & 0xff == code % 256) by (bit_vector);
                let interrupt_number = (code & 0xff) as u32;
                match Interrupt::from(interrupt_number) {
                    Interrupt::Unknown => TrapHandler::Exception,
                    Interrupt::Gpio => TrapHandler::Gpio,
                    Interrupt::TimerCh0 => TrapHandler::TimerCh0,
                    Interrupt::TimerCh1 => TrapHandler::TimerCh1,
                    Interrupt::Watchdog => TrapHandler::Watchdog,
                }
            }
        },
    }
}

/// A trap reaches the handler of a recognized interrupt exactly when it is an
/// interrupt whose code is at least the peripheral base and whose low byte is
/// that interrupt's number; every other trap reaches the generic handler.
pub proof fn lemma_trap_reaches_its_handler(cause: usize, interrupt: Interrupt)
    requires
        interrupt != Interrupt::Unknown,
    ensures
        handler_of(cause) == TrapHandler::serving(interrupt) <==> (cause_is_interrupt(cause)
            && cause_code(cause) >= IRQ_NUM_BASE && Some((cause_code(cause) % 256) as u32)
            == interrupt.irq_number()),
{
}

} // verus!
