use bl602_hal::interrupts::{
    _setup_interrupts, clear_interrupt, decode_cause, disable_interrupt, enable_interrupt,
    start_trap_rust_hal, ClicWrite, Interrupt, SetupStep, TrapCause, TrapFrame, TrapHandler,
    GPIO_IRQ, TIMER_CH0_IRQ, TIMER_CH1_IRQ, WATCHDOG_IRQ,
};

const INTERRUPT_BIT: usize = 1 << (usize::BITS - 1);

struct Calls {
    exception: u32,
    gpio: u32,
    timer_ch0: u32,
    timer_ch1: u32,
    watchdog: u32,
    last_ra: usize,
}

fn dispatch(cause: usize, frame: &mut TrapFrame, calls: &mut Calls) {
    calls.last_ra = frame.ra;
    match start_trap_rust_hal(cause) {
        TrapHandler::Exception => calls.exception += 1,
        TrapHandler::Gpio => calls.gpio += 1,
        TrapHandler::TimerCh0 => calls.timer_ch0 += 1,
        TrapHandler::TimerCh1 => calls.timer_ch1 += 1,
        TrapHandler::Watchdog => calls.watchdog += 1,
    }
}

fn no_calls() -> Calls {
    Calls { exception: 0, gpio: 0, timer_ch0: 0, timer_ch1: 0, watchdog: 0, last_ra: 0 }
}

#[test]
fn watchdog_trap_reaches_the_watchdog_handler_only() {
    let mut frame = TrapFrame::default();
    frame.ra = 0x2300_0000;
    let mut calls = no_calls();
    dispatch(INTERRUPT_BIT | 54, &mut frame, &mut calls);
    assert_eq!(calls.watchdog, 1);
    assert_eq!(calls.exception, 0);
    assert_eq!(calls.gpio, 0);
    assert_eq!(calls.timer_ch0, 0);
    assert_eq!(calls.timer_ch1, 0);
    assert_eq!(calls.last_ra, 0x2300_0000);
}

#[test]
fn each_interrupt_reaches_its_own_handler() {
    assert_eq!(start_trap_rust_hal(INTERRUPT_BIT | 60), TrapHandler::Gpio);
    assert_eq!(start_trap_rust_hal(INTERRUPT_BIT | 52), TrapHandler::TimerCh0);
    assert_eq!(start_trap_rust_hal(INTERRUPT_BIT | 53), TrapHandler::TimerCh1);
    assert_eq!(start_trap_rust_hal(INTERRUPT_BIT | 54), TrapHandler::Watchdog);
}

#[test]
fn exception_goes_to_the_generic_handler() {
    assert_eq!(start_trap_rust_hal(54), TrapHandler::Exception);
    assert_eq!(start_trap_rust_hal(2), TrapHandler::Exception);
    assert_eq!(start_trap_rust_hal(0), TrapHandler::Exception);
}

#[test]
fn interrupt_below_the_peripheral_range_goes_to_the_generic_handler() {
    assert_eq!(start_trap_rust_hal(INTERRUPT_BIT | 7), TrapHandler::Exception);
    assert_eq!(start_trap_rust_hal(INTERRUPT_BIT | 15), TrapHandler::Exception);
    assert_eq!(start_trap_rust_hal(INTERRUPT_BIT), TrapHandler::Exception);
}

#[test]
fn unlisted_interrupt_is_not_dropped() {
    assert_eq!(start_trap_rust_hal(INTERRUPT_BIT | 16), TrapHandler::Exception);
    assert_eq!(start_trap_rust_hal(INTERRUPT_BIT | 55), TrapHandler::Exception);
    assert_eq!(start_trap_rust_hal(INTERRUPT_BIT | 255), TrapHandler::Exception);
}

#[test]
fn only_the_low_byte_of_the_code_names_the_interrupt() {
    assert_eq!(start_trap_rust_hal(INTERRUPT_BIT | 0x100 | 54), TrapHandler::Watchdog);
    assert_eq!(start_trap_rust_hal(INTERRUPT_BIT | 0x1000), TrapHandler::Exception);
}

#[test]
fn cause_is_taken_apart() {
    assert_eq!(decode_cause(INTERRUPT_BIT | 54), TrapCause::Interrupt(54));
    assert_eq!(decode_cause(54), TrapCause::Exception(54));
    assert_eq!(decode_cause(INTERRUPT_BIT), TrapCause::Interrupt(0));
    assert_eq!(decode_cause(usize::MAX), TrapCause::Interrupt(usize::MAX >> 1));
    assert_eq!(decode_cause(usize::MAX >> 1), TrapCause::Exception(usize::MAX >> 1));
}

#[test]
fn interrupt_numbers() {
    assert_eq!(GPIO_IRQ, 60);
    assert_eq!(TIMER_CH0_IRQ, 52);
    assert_eq!(TIMER_CH1_IRQ, 53);
    assert_eq!(WATCHDOG_IRQ, 54);
    assert_eq!(Interrupt::Gpio.to_irq(), 60);
    assert_eq!(Interrupt::TimerCh0.to_irq(), 52);
    assert_eq!(Interrupt::TimerCh1.to_irq(), 53);
    assert_eq!(Interrupt::Watchdog.to_irq(), 54);
}

#[test]
fn interrupt_to_number_and_back() {
    let all = [Interrupt::Gpio, Interrupt::TimerCh0, Interrupt::TimerCh1, Interrupt::Watchdog];
    for interrupt in all {
        assert_eq!(Interrupt::from(interrupt.to_irq()), interrupt);
        assert_eq!(interrupt.checked_irq(), Some(interrupt.to_irq()));
    }
}

#[test]
fn numbers_outside_the_table_are_unknown() {
    let mut irq: u32 = 0;
    while irq < 1024 {
        let listed = irq == 52 || irq == 53 || irq == 54 || irq == 60;
        assert_eq!(Interrupt::from(irq) == Interrupt::Unknown, !listed);
        irq += 1;
    }
    assert_eq!(Interrupt::from(u32::MAX), Interrupt::Unknown);
}

#[test]
fn unknown_has_no_number() {
    assert_eq!(Interrupt::Unknown.checked_irq(), None);
}

#[test]
fn enable_writes_one_to_the_enable_byte() {
    assert_eq!(
        enable_interrupt(Interrupt::Watchdog),
        ClicWrite { addr: 0x0280_0436, value: 1 }
    );
    assert_eq!(enable_interrupt(Interrupt::Gpio), ClicWrite { addr: 0x0280_043c, value: 1 });
}

#[test]
fn disable_writes_zero_to_the_enable_byte() {
    assert_eq!(
        disable_interrupt(Interrupt::TimerCh0),
        ClicWrite { addr: 0x0280_0434, value: 0 }
    );
}

#[test]
fn clear_writes_zero_to_the_pending_byte() {
    assert_eq!(
        clear_interrupt(Interrupt::TimerCh1),
        ClicWrite { addr: 0x0280_0035, value: 0 }
    );
}

#[test]
fn setup_brackets_the_clearing_with_interrupts_off() {
    let steps = _setup_interrupts(0x2300_1000);
    assert_eq!(steps.len(), 51);
    assert_eq!(steps[0], SetupStep::DisableInterrupts);
    assert_eq!(steps[1], SetupStep::WriteTrapVector(0x2300_1002));
    assert_eq!(steps[50], SetupStep::EnableInterrupts);
    for step in &steps[1..50] {
        assert_ne!(*step, SetupStep::EnableInterrupts);
        assert_ne!(*step, SetupStep::DisableInterrupts);
    }
}

#[test]
fn setup_clears_both_regions_word_by_word() {
    let steps = _setup_interrupts(0);
    let mut i: u32 = 0;
    while i < 24 {
        assert_eq!(steps[2 + i as usize], SetupStep::ClearWord(0x0280_0400 + 4 * i));
        assert_eq!(steps[26 + i as usize], SetupStep::ClearWord(0x0280_0000 + 4 * i));
        i += 1;
    }
}

#[test]
fn setup_covers_every_listed_interrupt() {
    let steps = _setup_interrupts(0);
    for interrupt in [Interrupt::Gpio, Interrupt::TimerCh0, Interrupt::TimerCh1, Interrupt::Watchdog]
    {
        let enable = enable_interrupt(interrupt).addr & !3;
        let pending = clear_interrupt(interrupt).addr & !3;
        assert!(steps.contains(&SetupStep::ClearWord(enable)));
        assert!(steps.contains(&SetupStep::ClearWord(pending)));
    }
}

#[test]
fn trap_frame_starts_zeroed() {
    let frame = TrapFrame::default();
    assert_eq!(frame.ra, 0);
    assert_eq!(frame.sp, 0);
    assert_eq!(frame.a0, 0);
    assert_eq!(frame.s11, 0);
}
