use pwm_driver::config::{ChannelTiming, CountingMode, InitialValue, OutputBehavior, PwmConfig};
use pwm_driver::controller::{BusOp, BusRequest, PwmChannel, Task};
use pwm_driver::registers::{ChannelReg, Reg};
use pwm_driver::system::{example_config, example_usage, pwm_interrupt_handler, PwmSystem};

fn config() -> PwmConfig {
    PwmConfig {
        frequency: 20_000,
        duty_cycle_bits: 0.1f32.to_bits(),
        counting_mode: CountingMode::UpAndDown,
        deadtime_ns: None,
        use_fifo: false,
        output_behavior: OutputBehavior::ToggleOnMatch,
        initial_value: InitialValue::High,
    }
}

const TIMING: ChannelTiming = ChannelTiming { period_cycles: 1, duty_cycles: 0, deadband_cycles: 0 };

#[test]
fn new_system_has_controllers_at_their_bases() {
    let mut s = PwmSystem::new();
    let bases = [
        0x2804_A000, 0x2804_B000, 0x2804_C000, 0x2804_D000, 0x2804_E000, 0x2804_F000, 0x2805_0000,
        0x2805_1000,
    ];
    for (i, base) in bases.iter().enumerate() {
        let c = s.controller(i).unwrap();
        assert_eq!(c.registers(), *base);
        assert_eq!(c.channel(0), PwmChannel { config: None, enabled: false });
    }
    assert!(s.controller(8).is_none());
}

#[test]
fn global_enable_of_new_system_is_zero() {
    let s = PwmSystem::new();
    assert_eq!(s.global_enable(), 0);
}

#[test]
fn global_enable_sets_bits_of_configured_controllers() {
    let mut s = PwmSystem::new();
    assert_eq!(s.controller(3).unwrap().configure_channel(1, config(), TIMING), Ok(()));
    assert_eq!(s.global_enable(), 0b1000);
    assert_eq!(s.controller(7).unwrap().configure_channel(0, config(), TIMING), Ok(()));
    assert_eq!(s.global_enable(), 0b1000_1000);
}

#[test]
fn global_enable_ignores_enabled_but_unconfigured() {
    let mut s = PwmSystem::new();
    assert_eq!(s.controller(2).unwrap().enable_channel(0), Ok(()));
    assert_eq!(s.global_enable(), 0);
}

#[test]
fn interrupt_handler_starts_on_valid_controller() {
    let mut s = PwmSystem::new();
    assert_eq!(pwm_interrupt_handler(&mut s, 8), None);
    assert_eq!(
        pwm_interrupt_handler(&mut s, 5),
        Some(BusRequest::Read(Reg::Channel { channel: 0, reg: ChannelReg::State }))
    );
    assert!(matches!(s.controller(5).unwrap().task(), Task::Interrupt { .. }));
    assert_eq!(s.controller(4).unwrap().task(), Task::Idle);
}

#[test]
fn example_usage_configures_and_enables_controller_zero() {
    let timing = ChannelTiming { period_cycles: 1, duty_cycles: 0, deadband_cycles: 5 };
    assert_eq!(example_config().duty_cycle_bits, 0.5f32.to_bits());
    let (mut s, mask) = example_usage(timing);
    assert_eq!(mask, 1);
    let c = s.controller(0).unwrap();
    let ch = c.channel(0);
    assert!(ch.enabled);
    assert!(ch.config.is_some());
    let ops = c.take_bus_ops();
    assert_eq!(ops.len(), 8);
    assert_eq!(
        ops[7],
        BusOp::Modify {
            reg: Reg::Channel { channel: 0, reg: ChannelReg::TimCtrl },
            field: pwm_driver::bits::FieldVal { mask: 2, value: 2 },
        }
    );
    assert!(s.controller(1).unwrap().take_bus_ops().is_empty());
}
