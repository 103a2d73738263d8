use bl602_hal::pwm::{pwm_period_setup, PeriodSetup, PWM_CLOCK_SELECT};

#[test]
fn servo_period_at_full_speed() {
    assert_eq!(
        pwm_period_setup(160_000_000, 50),
        PeriodSetup { clock_select: 3, clock_divider: 49, period: 65_306 }
    );
}

#[test]
fn divider_is_the_smallest_that_fits_the_counter() {
    let fast = pwm_period_setup(32_000_000, 1_000);
    assert_eq!((fast.clock_divider, fast.period), (1, 32_000));
    let slow = pwm_period_setup(32_000_000, 1);
    assert_eq!((slow.clock_divider, slow.period), (489, 65_439));
    let exact = pwm_period_setup(3_276_750, 50);
    assert_eq!((exact.clock_divider, exact.period), (1, 65_535));
    let edge = pwm_period_setup(65_535, 1);
    assert_eq!((edge.clock_divider, edge.period), (1, 65_535));
    let over = pwm_period_setup(65_536, 1);
    assert_eq!((over.clock_divider, over.period), (2, 32_768));
}

#[test]
fn extremes() {
    let least = pwm_period_setup(1, 1);
    assert_eq!((least.clock_select, least.clock_divider, least.period), (PWM_CLOCK_SELECT, 1, 1));
    let most = pwm_period_setup(u32::MAX, 1);
    assert_eq!((most.clock_divider, most.period), (u16::MAX, 65_535));
    let rate_above_clock = pwm_period_setup(32_000_000, 4_000_000_000);
    assert_eq!((rate_above_clock.clock_divider, rate_above_clock.period), (1, 0));
}
