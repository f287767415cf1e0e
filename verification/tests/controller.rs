use pwm_driver::bits::FieldVal;
use pwm_driver::config::{ChannelTiming, CountingMode, InitialValue, OutputBehavior, PwmConfig};
use pwm_driver::controller::{
    BusOp, BusRequest, ChannelId, IrqStage, PwmChannel, PwmController, PwmError, Task,
};
use pwm_driver::registers::{ChannelReg, Reg};

fn reg(channel: usize, reg: ChannelReg) -> Reg {
    Reg::Channel { channel, reg }
}

fn config(use_fifo: bool, deadtime_ns: Option<u32>) -> PwmConfig {
    PwmConfig {
        frequency: 1000,
        duty_cycle_bits: 0.5f32.to_bits(),
        counting_mode: CountingMode::Modulo,
        deadtime_ns,
        use_fifo,
        output_behavior: OutputBehavior::ClearOnMatch,
        initial_value: InitialValue::Low,
    }
}

fn timing(period_cycles: u32, duty_cycles: u16, deadband_cycles: u16) -> ChannelTiming {
    ChannelTiming { period_cycles, duty_cycles, deadband_cycles }
}

fn disable(channel: usize) -> BusOp {
    BusOp::Modify { reg: reg(channel, ChannelReg::TimCtrl), field: FieldVal { mask: 2, value: 0 } }
}

#[test]
fn new_controller_is_unconfigured() {
    let mut c = PwmController::new(0x2804_A000);
    assert_eq!(c.registers(), 0x2804_A000);
    assert_eq!(c.channel(0), PwmChannel { config: None, enabled: false });
    assert_eq!(c.channel(1), PwmChannel { config: None, enabled: false });
    assert_eq!(c.task(), Task::Idle);
    assert!(c.take_bus_ops().is_empty());
    assert!(!c.is_configured());
}

#[test]
fn configure_writes_registers_in_order() {
    let mut c = PwmController::new(0);
    assert_eq!(c.configure_channel(0, config(false, Some(100)), timing(1, 0, 5)), Ok(()));
    let ops = c.take_bus_ops();
    assert_eq!(
        ops,
        vec![
            disable(0),
            BusOp::Write { reg: Reg::DbDly, value: 5 | (5 << 10) },
            BusOp::Write { reg: Reg::DbCtrl, value: 0b11 << 4 },
            BusOp::Write { reg: reg(0, ChannelReg::TimCtrl), value: (50_000 & 0xfff) << 16 },
            BusOp::Write { reg: reg(0, ChannelReg::PwmPeriod), value: 0 },
            BusOp::Write { reg: reg(0, ChannelReg::PwmCtrl), value: (1 << 2) | (1 << 4) | (1 << 3) },
            BusOp::Write { reg: reg(0, ChannelReg::PwmCcr), value: 0 },
        ]
    );
    assert_eq!(c.channel(0), PwmChannel { config: Some(config(false, Some(100))), enabled: false });
    assert!(c.take_bus_ops().is_empty());
    assert!(c.is_configured());
}

#[test]
fn configure_fifo_mode_prefills_four_values() {
    let mut c = PwmController::new(0);
    let mut cfg = config(true, None);
    cfg.frequency = 1;
    cfg.counting_mode = CountingMode::UpAndDown;
    cfg.initial_value = InitialValue::High;
    cfg.output_behavior = OutputBehavior::Initialize;
    assert_eq!(c.configure_channel(1, cfg, timing(812, 405, 7)), Ok(()));
    // divider 61568, period 812 cycles, register 811, duty 405
    let ccr = BusOp::Write { reg: reg(1, ChannelReg::PwmCcr), value: 405 };
    assert_eq!(
        c.take_bus_ops(),
        vec![
            disable(1),
            BusOp::Write {
                reg: reg(1, ChannelReg::TimCtrl),
                value: ((61_568 & 0xfff) << 16) | (1 << 2),
            },
            BusOp::Write { reg: reg(1, ChannelReg::PwmPeriod), value: 811 },
            BusOp::Write {
                reg: reg(1, ChannelReg::PwmCtrl),
                value: (1 << 2) | (1 << 8) | (1 << 7) | (7 << 4) | (1 << 3),
            },
            ccr,
            ccr,
            ccr,
            ccr,
            BusOp::Modify { reg: reg(1, ChannelReg::PwmCtrl), field: FieldVal { mask: 1 << 9, value: 1 << 9 } },
        ]
    );
}

#[test]
fn configure_rejects_invalid_channel() {
    let mut c = PwmController::new(0);
    assert_eq!(c.configure_channel(2, config(false, None), timing(1, 0, 0)), Err(PwmError::InvalidChannel));
    assert!(c.take_bus_ops().is_empty());
}

#[test]
fn configure_rejects_duty_out_of_range() {
    let mut c = PwmController::new(0);
    let mut cfg = config(false, None);
    cfg.duty_cycle_bits = 1.5f32.to_bits();
    assert_eq!(c.configure_channel(0, cfg, timing(1, 0, 0)), Err(PwmError::InvalidDutyCycle));
    cfg.duty_cycle_bits = (-0.25f32).to_bits();
    assert_eq!(c.configure_channel(0, cfg, timing(1, 0, 0)), Err(PwmError::InvalidDutyCycle));
    cfg.duty_cycle_bits = f32::NAN.to_bits();
    assert_eq!(c.configure_channel(0, cfg, timing(1, 0, 0)), Err(PwmError::InvalidDutyCycle));
    assert!(c.take_bus_ops().is_empty());
    assert_eq!(c.channel(0), PwmChannel { config: None, enabled: false });
}

#[test]
fn configure_accepts_duty_bounds() {
    let mut c = PwmController::new(0);
    let mut cfg = config(false, None);
    cfg.duty_cycle_bits = 0.0f32.to_bits();
    assert_eq!(c.configure_channel(0, cfg, timing(1, 0, 0)), Ok(()));
    cfg.duty_cycle_bits = 1.0f32.to_bits();
    assert_eq!(c.configure_channel(0, cfg, timing(1, 0, 0)), Ok(()));
    cfg.duty_cycle_bits = (-0.0f32).to_bits();
    assert_eq!(c.configure_channel(0, cfg, timing(1, 0, 0)), Ok(()));
}

#[test]
fn configure_rejects_too_large_period_after_disabling() {
    let mut c = PwmController::new(0);
    assert_eq!(c.configure_channel(0, config(false, None), timing(1, 0, 0)), Ok(()));
    assert_eq!(c.enable_channel(0), Ok(()));
    c.take_bus_ops();
    let mut cfg = config(false, None);
    cfg.frequency = 60_000_000; // divider 0: the single-precision period saturates
    assert_eq!(c.configure_channel(0, cfg, timing(u32::MAX, 0, 0)), Err(PwmError::PeriodTooLarge));
    assert_eq!(c.take_bus_ops(), vec![disable(0)]);
    assert_eq!(c.channel(0), PwmChannel { config: Some(config(false, None)), enabled: false });
}

#[test]
fn configure_rejects_zero_period_after_disabling() {
    let mut c = PwmController::new(0);
    assert_eq!(c.configure_channel(1, config(false, None), timing(0, 0, 0)), Err(PwmError::PeriodTooSmall));
    assert_eq!(c.take_bus_ops(), vec![disable(1)]);
    assert_eq!(c.channel(1), PwmChannel { config: None, enabled: false });
}

#[test]
fn configure_accepts_largest_period() {
    let mut c = PwmController::new(0);
    assert_eq!(c.configure_channel(0, config(false, None), timing(0x10000, 7, 0)), Ok(()));
    let ops = c.take_bus_ops();
    assert_eq!(ops[2], BusOp::Write { reg: reg(0, ChannelReg::PwmPeriod), value: 0xffff });
    assert_eq!(c.configure_channel(0, config(false, None), timing(0x10001, 7, 0)), Err(PwmError::PeriodTooLarge));
}

#[test]
fn configure_limits_deadband_delay() {
    let mut c = PwmController::new(0);
    assert_eq!(c.configure_channel(0, config(false, Some(1_000_000)), timing(1, 0, 50_000)), Ok(()));
    let ops = c.take_bus_ops();
    assert_eq!(ops[1], BusOp::Write { reg: Reg::DbDly, value: 1023 | (1023 << 10) });
}

#[test]
fn enable_sets_enable_bit() {
    let mut c = PwmController::new(0);
    assert_eq!(c.enable_channel(1), Ok(()));
    assert_eq!(
        c.take_bus_ops(),
        vec![BusOp::Modify { reg: reg(1, ChannelReg::TimCtrl), field: FieldVal { mask: 2, value: 2 } }]
    );
    assert!(c.channel(1).enabled);
    assert_eq!(c.enable_channel(2), Err(PwmError::InvalidChannel));
    assert!(c.take_bus_ops().is_empty());
}

#[test]
fn disable_twice_keeps_channel_disabled() {
    let mut c = PwmController::new(0);
    assert_eq!(c.enable_channel(0), Ok(()));
    c.take_bus_ops();
    c.disable_channel(0);
    c.disable_channel(0);
    assert_eq!(c.take_bus_ops(), vec![disable(0), disable(0)]);
    assert!(!c.channel(0).enabled);
}

#[test]
fn safe_stop_waits_for_counter_zero() {
    let mut c = PwmController::new(0);
    assert_eq!(c.enable_channel(1), Ok(()));
    c.take_bus_ops();
    assert_eq!(c.safe_stop_channel(1), BusRequest::Read(reg(1, ChannelReg::TimCnt)));
    assert_eq!(c.take_bus_ops(), vec![BusOp::Write { reg: reg(1, ChannelReg::PwmCcr), value: 0 }]);
    assert_eq!(c.resume(5), BusRequest::Pause);
    assert_eq!(c.task(), Task::SafeStop { channel: ChannelId::Ch1, paused: true });
    assert_eq!(c.resume(0), BusRequest::Read(reg(1, ChannelReg::TimCnt)));
    assert!(c.channel(1).enabled);
    // only the 16 counter bits count
    assert_eq!(c.resume(0x1_0000), BusRequest::Done(Ok(())));
    assert_eq!(c.take_bus_ops(), vec![disable(1)]);
    assert!(!c.channel(1).enabled);
    assert_eq!(c.task(), Task::Idle);
}

#[test]
fn push_fifo_data_writes_when_not_full() {
    let mut c = PwmController::new(0);
    assert_eq!(c.push_fifo_data(0, 300), BusRequest::Read(reg(0, ChannelReg::State)));
    assert!(c.take_bus_ops().is_empty());
    assert_eq!(c.resume(0b0111), BusRequest::Done(Ok(())));
    assert_eq!(c.take_bus_ops(), vec![BusOp::Write { reg: reg(0, ChannelReg::PwmCcr), value: 300 }]);
}

#[test]
fn push_fifo_data_refuses_when_full() {
    let mut c = PwmController::new(0);
    assert_eq!(c.push_fifo_data(1, 300), BusRequest::Read(reg(1, ChannelReg::State)));
    assert_eq!(c.resume(0b1000), BusRequest::Done(Err(PwmError::FifoFull)));
    assert!(c.take_bus_ops().is_empty());
    assert_eq!(c.task(), Task::Idle);
}

#[test]
fn push_fifo_data_rejects_invalid_channel() {
    let mut c = PwmController::new(0);
    assert_eq!(c.push_fifo_data(2, 1), BusRequest::Done(Err(PwmError::InvalidChannel)));
    assert!(c.take_bus_ops().is_empty());
}

#[test]
fn resume_without_task_reports_success() {
    let mut c = PwmController::new(0);
    assert_eq!(c.resume(123), BusRequest::Done(Ok(())));
    assert!(c.take_bus_ops().is_empty());
}

#[test]
fn interrupt_with_no_flags_writes_nothing() {
    let mut c = PwmController::new(0);
    assert_eq!(c.handle_interrupt(), BusRequest::Read(reg(0, ChannelReg::State)));
    assert_eq!(c.resume(0), BusRequest::Read(reg(1, ChannelReg::State)));
    assert_eq!(c.resume(0), BusRequest::Done(Ok(())));
    assert!(c.take_bus_ops().is_empty());
}

#[test]
fn interrupt_clears_only_flags_that_are_set() {
    let mut c = PwmController::new(0);
    c.handle_interrupt();
    // overflow and compare-match set, FIFO-empty clear
    assert_eq!(c.resume(0b0011), BusRequest::Read(reg(1, ChannelReg::State)));
    let state0 = reg(0, ChannelReg::State);
    assert_eq!(
        c.take_bus_ops(),
        vec![BusOp::Write { reg: state0, value: 2 }, BusOp::Write { reg: state0, value: 1 }]
    );
    // FIFO-full alone is not written back
    assert_eq!(c.resume(0b1000), BusRequest::Done(Ok(())));
    assert!(c.take_bus_ops().is_empty());
}

#[test]
fn interrupt_fifo_empty_reads_counter() {
    let mut c = PwmController::new(0);
    c.handle_interrupt();
    assert_eq!(c.resume(0b0100), BusRequest::Read(reg(0, ChannelReg::TimCnt)));
    assert_eq!(c.resume(3), BusRequest::Read(reg(1, ChannelReg::State)));
    assert_eq!(c.take_bus_ops(), vec![BusOp::Write { reg: reg(0, ChannelReg::State), value: 4 }]);
}

#[test]
fn interrupt_clears_flags_when_counter_running() {
    let mut c = PwmController::new(0);
    c.handle_interrupt();
    assert_eq!(c.resume(0b0111), BusRequest::Read(reg(0, ChannelReg::TimCnt)));
    assert_eq!(c.resume(7), BusRequest::Read(reg(1, ChannelReg::State)));
    let state = reg(0, ChannelReg::State);
    assert_eq!(
        c.take_bus_ops(),
        vec![
            BusOp::Write { reg: state, value: 4 },
            BusOp::Write { reg: state, value: 2 },
            BusOp::Write { reg: state, value: 1 },
        ]
    );
    assert_eq!(c.resume(0), BusRequest::Done(Ok(())));
}

#[test]
fn interrupt_skips_push_for_unconfigured_channel() {
    let mut c = PwmController::new(0);
    c.handle_interrupt();
    c.resume(0);
    assert_eq!(c.resume(0b0101), BusRequest::Read(reg(1, ChannelReg::TimCnt)));
    assert_eq!(c.resume(0), BusRequest::Done(Ok(())));
    let state = reg(1, ChannelReg::State);
    assert_eq!(
        c.take_bus_ops(),
        vec![BusOp::Write { reg: state, value: 4 }, BusOp::Write { reg: state, value: 1 }]
    );
}

#[test]
fn interrupt_refills_fifo_at_counter_zero() {
    let mut c = PwmController::new(0);
    let mut cfg = config(true, None);
    cfg.duty_cycle_bits = 0.25f32.to_bits();
    assert_eq!(c.configure_channel(0, cfg, timing(1000, 249, 0)), Ok(()));
    c.take_bus_ops();
    c.handle_interrupt();
    assert_eq!(c.resume(0b0111), BusRequest::Read(reg(0, ChannelReg::TimCnt)));
    assert_eq!(c.resume(0), BusRequest::Read(reg(0, ChannelReg::PwmPeriod)));
    assert_eq!(
        c.resume(0xabcd_0000 | 999),
        BusRequest::ScaleDuty { cycles: 1000, duty_cycle_bits: 0.25f32.to_bits() }
    );
    assert_eq!(c.resume(250), BusRequest::Read(reg(0, ChannelReg::State)));
    assert_eq!(
        c.task(),
        Task::Interrupt { channel: ChannelId::Ch0, stage: IrqStage::FifoState { state: 7, duty: 250 } }
    );
    assert_eq!(c.resume(0b0111), BusRequest::Read(reg(1, ChannelReg::State)));
    let state = reg(0, ChannelReg::State);
    assert_eq!(
        c.take_bus_ops(),
        vec![
            BusOp::Write { reg: reg(0, ChannelReg::PwmCcr), value: 250 },
            BusOp::Write { reg: state, value: 4 },
            BusOp::Write { reg: state, value: 2 },
            BusOp::Write { reg: state, value: 1 },
        ]
    );
    assert_eq!(c.resume(0), BusRequest::Done(Ok(())));
}

#[test]
fn interrupt_stops_channel_on_full_fifo() {
    let mut c = PwmController::new(0);
    assert_eq!(c.configure_channel(0, config(true, None), timing(1, 0, 0)), Ok(()));
    c.take_bus_ops();
    c.handle_interrupt();
    c.resume(0b0100);
    c.resume(0);
    c.resume(0xffff);
    c.resume(0xffff);
    assert_eq!(
        c.resume(0b1100),
        BusRequest::ChannelFailed { channel: 0, error: PwmError::FifoFull }
    );
    assert_eq!(c.task(), Task::Interrupt { channel: ChannelId::Ch0, stage: IrqStage::Failed });
    assert_eq!(c.resume(0), BusRequest::Read(reg(1, ChannelReg::State)));
    assert!(c.take_bus_ops().is_empty());
    assert_eq!(c.resume(0), BusRequest::Done(Ok(())));
}

#[test]
fn error_messages() {
    assert_eq!(PwmError::InvalidChannel.message(), "Invalid channel number");
    assert_eq!(PwmError::InvalidDutyCycle.message(), "Duty cycle must be between 0.0 and 1.0");
    assert_eq!(PwmError::PeriodTooSmall.message(), "Period too small");
    assert_eq!(PwmError::PeriodTooLarge.message(), "Period value too large");
    assert_eq!(PwmError::FifoFull.message(), "FIFO full");
}

#[test]
fn channel_ids() {
    assert_eq!(ChannelId::from_index(0), Some(ChannelId::Ch0));
    assert_eq!(ChannelId::from_index(1), Some(ChannelId::Ch1));
    assert_eq!(ChannelId::from_index(2), None);
    assert_eq!(ChannelId::Ch1.index(), 1);
}

#[test]
fn configured_timer_fields_decode() {
    let mut c = PwmController::new(0);
    let mut cfg = config(false, None);
    cfg.counting_mode = CountingMode::UpAndDown;
    assert_eq!(c.configure_channel(0, cfg, timing(1, 0, 0)), Ok(()));
    let ops = c.take_bus_ops();
    match ops[1] {
        BusOp::Write { reg: r, value } => {
            assert_eq!(r, reg(0, ChannelReg::TimCtrl));
            assert_eq!(value & 2, 0); // ENABLE clear
            assert_eq!((value >> 16) & 0xfff, 50_000 & 0xfff);
            assert_eq!((value >> 2) & 1, 1);
        }
        _ => panic!("TIM_CTRL is written"),
    }
}

#[test]
fn interrupt_handling_ends_within_twelve_steps() {
    for value in [0u32, 4, 0xffff_ffff, 0b1100] {
        let mut c = PwmController::new(0);
        assert_eq!(c.configure_channel(0, config(true, None), timing(1, 0, 0)), Ok(()));
        assert_eq!(c.configure_channel(1, config(true, None), timing(1, 0, 0)), Ok(()));
        let mut request = c.handle_interrupt();
        let mut steps = 0;
        while !matches!(request, BusRequest::Done(_)) {
            request = c.resume(if steps % 2 == 1 { 0 } else { value });
            steps += 1;
            assert!(steps <= 12);
        }
        assert_eq!(request, BusRequest::Done(Ok(())));
    }
}

fn perform(ops: &[BusOp], tim_ctrl: &mut [u32; 2]) {
    for op in ops {
        for c in 0..2 {
            match *op {
                BusOp::Write { reg: r, value } if r == reg(c, ChannelReg::TimCtrl) => tim_ctrl[c] = value,
                BusOp::Modify { reg: r, field } if r == reg(c, ChannelReg::TimCtrl) => {
                    tim_ctrl[c] = (tim_ctrl[c] & !field.mask) | field.value
                }
                _ => {}
            }
        }
    }
}

#[test]
fn enabled_flags_follow_enable_bits() {
    let mut c = PwmController::new(0);
    let mut tim_ctrl = [0xffff_0000u32, 0];
    let check = |c: &mut PwmController, tim_ctrl: &mut [u32; 2]| {
        let ops = c.take_bus_ops();
        perform(&ops, tim_ctrl);
        for ch in 0..2 {
            assert_eq!(c.channel(ch).enabled, tim_ctrl[ch] & 2 != 0);
        }
    };
    assert_eq!(c.enable_channel(0), Ok(()));
    check(&mut c, &mut tim_ctrl);
    assert_eq!(tim_ctrl[0], 0xffff_0002);
    assert_eq!(c.configure_channel(1, config(true, Some(40)), timing(5, 2, 2)), Ok(()));
    check(&mut c, &mut tim_ctrl);
    assert_eq!(c.enable_channel(1), Ok(()));
    check(&mut c, &mut tim_ctrl);
    let mut request = c.safe_stop_channel(1);
    while let BusRequest::Read(_) | BusRequest::Pause = request {
        request = c.resume(0);
    }
    check(&mut c, &mut tim_ctrl);
    assert!(!c.channel(1).enabled);
    c.disable_channel(0);
    c.disable_channel(0);
    check(&mut c, &mut tim_ctrl);
    assert_eq!(tim_ctrl[0], 0xffff_0000);
}
