use pwm_driver::config::{
    clock_divider, deadband_delay, CountingMode, InitialValue, OutputBehavior, PwmConfig,
};

fn with_duty(duty: f32) -> PwmConfig {
    PwmConfig {
        frequency: 1000,
        duty_cycle_bits: duty.to_bits(),
        counting_mode: CountingMode::Modulo,
        deadtime_ns: None,
        use_fifo: false,
        output_behavior: OutputBehavior::SetOnMatch,
        initial_value: InitialValue::Low,
    }
}

#[test]
fn divider_is_clock_over_frequency() {
    assert_eq!(clock_divider(1000), 50_000);
    assert_eq!(clock_divider(50_000_000), 1);
}

#[test]
fn divider_keeps_low_16_bits() {
    // 50_000_000 / 1 = 50_000_000 = 762 * 65536 + 61568
    assert_eq!(clock_divider(1), 61_568);
    assert_eq!(clock_divider(50_000_001), 0);
}

#[test]
fn deadband_delay_limited_to_ten_bits() {
    assert_eq!(deadband_delay(5), 5);
    assert_eq!(deadband_delay(1023), 1023);
    assert_eq!(deadband_delay(1024), 1023);
    assert_eq!(deadband_delay(u16::MAX), 1023);
}

#[test]
fn duty_in_range_accepts_zero_to_one() {
    for d in [0.0f32, -0.0, 0.5, 1.0, f32::MIN_POSITIVE, 0.999_999_94] {
        assert!(with_duty(d).duty_in_range(), "{}", d);
    }
}

#[test]
fn duty_in_range_refuses_outside() {
    for d in [-1e-30f32, -0.5, 1.000_000_1, 2.0, f32::INFINITY, f32::NEG_INFINITY] {
        assert!(!with_duty(d).duty_in_range(), "{}", d);
    }
}

#[test]
fn duty_in_range_refuses_nan() {
    assert!(!with_duty(f32::NAN).duty_in_range());
    assert!(!with_duty(-f32::NAN).duty_in_range());
}
