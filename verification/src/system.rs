//! The set of PWM controllers of the chip and their global enable register.

use crate::config::{ChannelTiming, CountingMode, InitialValue, OutputBehavior, PwmConfig};
use crate::calls::{call_allowed, call_result, lemma_calls_keep_configurations, ControllerCall};
use crate::controller::{
    ch_reg, configure_ops, enable_op, has_configured_channel, interrupt_start,
    lemma_controller_has_two_channels, with_channel, with_ops, BusRequest, ControllerState,
    PwmChannel, PwmController, Task,
};
use crate::registers::{ChannelReg, CHANNELS_PER_CONTROLLER};
use vstd::prelude::*;

verus! {

/// Number of PWM controllers.
pub const PWM_CONTROLLERS: usize = 8;

/// Address of the global enable register: bit `i` enables controller `i`.
pub const GLOBAL_ENABLE_REG_ADDR: usize = 0x2807_E020;

/// Base address of the register block of each controller.
pub open spec fn spec_controller_base(index: int) -> usize {
    if index == 0 {
        0x2804_A000
    } else if index == 1 {
        0x2804_B000
    } else if index == 2 {
        0x2804_C000
    } else if index == 3 {
        0x2804_D000
    } else if index == 4 {
        0x2804_E000
    } else if index == 5 {
        0x2804_F000
    } else if index == 6 {
        0x2805_0000
    } else {
        0x2805_1000
    }
}

/// The state of a controller just created at `base`.
pub open spec fn fresh_controller(base: usize) -> ControllerState {
    ControllerState {
        base,
        channels: seq![
            PwmChannel { config: None, enabled: false },
            PwmChannel { config: None, enabled: false },
        ],
        bus: Seq::empty(),
        task: Task::Idle,
    }
}

/// The global enable mask of the first `n` controllers: bit `i` for each
/// controller `i < n` with a configured channel.
pub open spec fn mask_upto(s: Seq<ControllerState>, n: nat) -> u32
    decreases n,
{
    if n == 0 {
        0
    } else {
        mask_upto(s, (n - 1) as nat) | (if has_configured_channel(s[n - 1]) {
            1u32 << ((n - 1) as u32)
        } else {
            0
        })
    }
}

/// The global enable mask of the controllers.
pub open spec fn global_mask(s: Seq<ControllerState>) -> u32 {
    mask_upto(s, PWM_CONTROLLERS as nat)
}

/// Bit `i` of a mask.
pub open spec fn mask_bit(mask: u32, i: int) -> bool {
    (mask >> (i as u32)) & 1 == 1
}

/// All PWM controllers of the chip.
pub struct PwmSystem {
    controllers: [PwmController; 8],
}

impl View for PwmSystem {
    type V = Seq<ControllerState>;

    closed spec fn view(&self) -> Seq<ControllerState> {
        self.controllers@.map_values(|c: PwmController| c@)
    }
}

/// A system has eight controllers of two channels each.
pub broadcast proof fn lemma_system_shape(s: &PwmSystem)
    ensures
        #![trigger s@]
        s@.len() == PWM_CONTROLLERS,
        forall|i: int| 0 <= i < PWM_CONTROLLERS ==> (#[trigger] s@[i]).channels.len() == CHANNELS_PER_CONTROLLER,
{
    assert forall|i: int| 0 <= i < PWM_CONTROLLERS implies (#[trigger] s@[i]).channels.len()
        == CHANNELS_PER_CONTROLLER by {
        lemma_controller_has_two_channels(&s.controllers@[i]);
    }
}

impl PwmSystem {
    /// All controllers, each at its base address, none configured.
    pub fn new() -> (r: Self)
        ensures
            r@.len() == PWM_CONTROLLERS,
            forall|i: int| 0 <= i < PWM_CONTROLLERS ==> #[trigger] r@[i] == fresh_controller(spec_controller_base(i)),
    {
        let r = PwmSystem {
            controllers: [
                PwmController::new(0x2804_A000),
                PwmController::new(0x2804_B000),
                PwmController::new(0x2804_C000),
                PwmController::new(0x2804_D000),
                PwmController::new(0x2804_E000),
                PwmController::new(0x2804_F000),
                PwmController::new(0x2805_0000),
                PwmController::new(0x2805_1000),
            ],
        };
        r
    }

    /// The global enable mask: bit `i` set exactly when controller `i` has a
    /// configured channel. The value is for GLOBAL_ENABLE_REG_ADDR.
    pub fn global_enable(&self) -> (mask: u32)
        ensures
            mask == global_mask(self@),
            mask < 0x100,
            forall|i: int| 0 <= i < PWM_CONTROLLERS ==> (mask_bit(mask, i) <==> has_configured_channel(#[trigger] self@[i])),
    {
        let mut enable_mask: u32 = 0;
        let mut i: usize = 0;
        assert(0u32 < (1u32 << 0u32)) by (bit_vector);
        while i < PWM_CONTROLLERS
            invariant
                i <= PWM_CONTROLLERS,
                self@.len() == PWM_CONTROLLERS,
                enable_mask < (1u32 << (i as u32)),
                enable_mask == mask_upto(self@, i as nat),
                forall|j: int| 0 <= j < i ==> (mask_bit(enable_mask, j) <==> has_configured_channel(#[trigger] self@[j])),
            decreases PWM_CONTROLLERS - i,
        {
            let configured = self.controllers[i].is_configured();
            proof {
                lemma_mask_step(enable_mask, i as u32);
            }
            if configured {
                enable_mask = enable_mask | (1u32 << (i as u32));
            }
            i = i + 1;
        }
        proof {
            lemma_mask_below_256(enable_mask);
        }
        enable_mask
    }
}

impl PwmSystem {
    /// The controller with the given index, if there is one, for use in
    /// place.
    pub fn controller(&mut self, index: usize) -> (r: Option<&mut PwmController>)
        ensures
            index < PWM_CONTROLLERS <==> r is Some,
            r is None ==> final(self)@ == old(self)@,
            r matches Some(c) ==> c@ == old(self)@[index as int] && final(self)@ == old(self)@.update(
                index as int,
                final(c)@,
            ),
    {
        if index < PWM_CONTROLLERS {
            Some(&mut self.controllers[index])
        } else {
            None
        }
    }
}

/// Starts servicing the interrupt of the controller with the given index
/// (see `PwmController::handle_interrupt`); `None` when there is no such
/// controller. The controller's `resume` carries the handling on.
pub fn pwm_interrupt_handler(system: &mut PwmSystem, controller_idx: usize) -> (r: Option<
    BusRequest,
>)
    ensures
        controller_idx >= PWM_CONTROLLERS ==> r is None && final(system)@ == old(system)@,
        controller_idx < PWM_CONTROLLERS ==> r == Some(BusRequest::Read(ch_reg(0, ChannelReg::State)))
            && final(system)@ == old(system)@.update(
            controller_idx as int,
            interrupt_start(old(system)@[controller_idx as int]),
        ),
{
    match system.controller(controller_idx) {
        Some(ctrl) => Some(ctrl.handle_interrupt()),
        None => None,
    }
}

/// The configuration of the usage example: 1 kHz, 50% duty, modulo
/// counting, 100 ns dead time, duty from the register, output cleared on
/// match, initial output low.
pub open spec fn spec_example_config() -> PwmConfig {
    PwmConfig {
        frequency: 1000,
        duty_cycle_bits: 0x3f00_0000,
        counting_mode: CountingMode::Modulo,
        deadtime_ns: Some(100),
        use_fifo: false,
        output_behavior: OutputBehavior::ClearOnMatch,
        initial_value: InitialValue::Low,
    }
}

/// The configuration of the usage example.
pub fn example_config() -> (r: PwmConfig)
    ensures
        r == spec_example_config(),
{
    PwmConfig {
        frequency: 1000,
        duty_cycle_bits: 0x3f00_0000,
        counting_mode: CountingMode::Modulo,
        deadtime_ns: Some(100),
        use_fifo: false,
        output_behavior: OutputBehavior::ClearOnMatch,
        initial_value: InitialValue::Low,
    }
}

/// Usage example: configures channel 0 of controller 0 with `example_config`
/// and the timing computed for it, enables the channel, then computes the
/// global enable mask. Returns the system (whose controller 0 holds the
/// queued writes) and the mask. The timing must give a period that fits.
pub fn example_usage(timing: ChannelTiming) -> (r: (PwmSystem, u32))
    requires
        1 <= timing.period_cycles <= 0x10000,
    ensures
        r.0@.len() == PWM_CONTROLLERS,
        r.0@[0] == with_ops(
            with_channel(
                fresh_controller(spec_controller_base(0)),
                0,
                PwmChannel { config: Some(spec_example_config()), enabled: true },
            ),
            configure_ops(0, spec_example_config(), timing).push(enable_op(0)),
        ),
        forall|i: int| 1 <= i < PWM_CONTROLLERS ==> #[trigger] r.0@[i] == fresh_controller(spec_controller_base(i)),
        r.1 == 1,
{
    let mut pwm_system = PwmSystem::new();
    let config = example_config();
    let ghost s0 = pwm_system@;
    assert(0x3f00_0000u32 & 0x8000_0000u32 == 0) by (bit_vector);
    if let Some(ctrl0) = pwm_system.controller(0) {
        let configured = ctrl0.configure_channel(0, config, timing);
        assert(configured is Ok);
        let enabled = ctrl0.enable_channel(0);
        assert(enabled is Ok);
    }
    let mask = pwm_system.global_enable();
    proof {
        let s = pwm_system@;
        assert(has_configured_channel(s[0])) by {
            assert(s[0].channels[0].config is Some);
        }
        assert forall|i: int| 1 <= i < 8 implies !#[trigger] mask_bit(mask, i) by {
            assert(s[i] == s0[i]);
            if has_configured_channel(s[i]) {
                let j = choose|j: int| 0 <= j < s[i].channels.len() && (#[trigger] s[i].channels[j]).config is Some;
                assert(s[i].channels[j].config is None);
            }
            assert(!has_configured_channel(s[i]));
        }
        lemma_mask_is_one(mask);
    }
    (pwm_system, mask)
}

/// A mask below 256 with bit 0 set and bits 1 to 7 clear is 1.
proof fn lemma_mask_is_one(m: u32)
    requires
        m < 0x100,
        mask_bit(m, 0),
        forall|i: int| 1 <= i < 8 ==> !#[trigger] mask_bit(m, i),
    ensures
        m == 1,
{
    assert(!mask_bit(m, 1) && !mask_bit(m, 2) && !mask_bit(m, 3) && !mask_bit(m, 4));
    assert(!mask_bit(m, 5) && !mask_bit(m, 6) && !mask_bit(m, 7));
    assert(m == 1) by (bit_vector)
        requires
            m < 0x100,
            (m >> 0u32) & 1 == 1,
            (m >> 1u32) & 1 != 1,
            (m >> 2u32) & 1 != 1,
            (m >> 3u32) & 1 != 1,
            (m >> 4u32) & 1 != 1,
            (m >> 5u32) & 1 != 1,
            (m >> 6u32) & 1 != 1,
            (m >> 7u32) & 1 != 1,
    ;
}

/// Setting bit `i` of a mask below `1 << i` keeps the lower bits, sets bit
/// `i`, and keeps the mask below `1 << (i + 1)`.
proof fn lemma_mask_step(m: u32, i: u32)
    requires
        i < 8,
        m < (1u32 << i),
    ensures
        m < (1u32 << ((i + 1) as u32)),
        m | 0 == m,
        (m | (1u32 << i)) < (1u32 << ((i + 1) as u32)),
        !mask_bit(m, i as int),
        mask_bit(m | (1u32 << i), i as int),
        forall|j: int| 0 <= j < i ==> (mask_bit(m | (1u32 << i), j) <==> mask_bit(m, j)),
{
    let k: u32 = (i + 1) as u32;
    assert(m < (1u32 << k) && m | 0 == m && (m | (1u32 << i)) < (1u32 << k) && (m >> i) & 1
        != 1 && ((m | (1u32 << i)) >> i) & 1 == 1 && forall|j: u32|
        j < i ==> (((m | (1u32 << i)) >> j) & 1 == 1 <==> (m >> j) & 1 == 1)) by (bit_vector)
        requires
            i < 8,
            k == i + 1,
            m < (1u32 << i),
    ;
    assert forall|j: int| 0 <= j < i implies (mask_bit(m | (1u32 << i), j) <==> mask_bit(m, j)) by {
        let ju = j as u32;
        assert(ju < i);
    }
}

proof fn lemma_mask_below_256(m: u32)
    requires
        m < (1u32 << 8u32),
    ensures
        m < 0x100,
{
    assert((1u32 << 8u32) == 0x100) by (bit_vector);
}

/// The global enable mask depends only on which controllers have a
/// configured channel.
pub proof fn lemma_mask_depends_on_configured(s1: Seq<ControllerState>, s2: Seq<ControllerState>, n: nat)
    requires
        n <= PWM_CONTROLLERS,
        forall|i: int| 0 <= i < n ==> has_configured_channel(s1[i]) == has_configured_channel(s2[i]),
    ensures
        mask_upto(s1, n) == mask_upto(s2, n),
    decreases n,
{
    if n > 0 {
        lemma_mask_depends_on_configured(s1, s2, (n - 1) as nat);
    }
}

/// Enabling or disabling channels leaves the global enable mask as it is:
/// two systems whose channels have the same configurations have the same
/// mask.
pub proof fn lemma_mask_ignores_enabled(s1: Seq<ControllerState>, s2: Seq<ControllerState>)
    requires
        s1.len() == PWM_CONTROLLERS,
        s2.len() == PWM_CONTROLLERS,
        forall|i: int|
            0 <= i < PWM_CONTROLLERS ==> (#[trigger] s1[i]).channels.len() == s2[i].channels.len(),
        forall|i: int, c: int|
            0 <= i < PWM_CONTROLLERS && 0 <= c < s1[i].channels.len() ==> (#[trigger] s1[i].channels[c]).config
                == s2[i].channels[c].config,
    ensures
        global_mask(s1) == global_mask(s2),
{
    assert forall|i: int| 0 <= i < PWM_CONTROLLERS implies has_configured_channel(s1[i])
        == has_configured_channel(s2[i]) by {
        if has_configured_channel(s1[i]) {
            let j = choose|j: int| 0 <= j < s1[i].channels.len() && (#[trigger] s1[i].channels[j]).config is Some;
            assert(s2[i].channels[j].config is Some);
        }
        if has_configured_channel(s2[i]) {
            let j = choose|j: int| 0 <= j < s2[i].channels.len() && (#[trigger] s2[i].channels[j]).config is Some;
            assert(s1[i].channels[j].config == s2[i].channels[j].config);
        }
    }
    lemma_mask_depends_on_configured(s1, s2, PWM_CONTROLLERS as nat);
}

/// Bits of the global enable mask are only ever added: when every
/// controller configured in `s1` is configured in `s2`, no bit of the mask
/// of `s1` is missing from that of `s2`.
pub proof fn lemma_mask_only_grows(s1: Seq<ControllerState>, s2: Seq<ControllerState>, n: nat)
    requires
        n <= PWM_CONTROLLERS,
        forall|i: int| 0 <= i < n ==> has_configured_channel(s1[i]) ==> has_configured_channel(s2[i]),
    ensures
        mask_upto(s1, n) & !mask_upto(s2, n) == 0,
    decreases n,
{
    if n > 0 {
        lemma_mask_only_grows(s1, s2, (n - 1) as nat);
        let a = mask_upto(s1, (n - 1) as nat);
        let b = mask_upto(s2, (n - 1) as nat);
        let bit = 1u32 << ((n - 1) as u32);
        let x: u32 = if has_configured_channel(s1[n - 1]) {
            bit
        } else {
            0
        };
        let y: u32 = if has_configured_channel(s2[n - 1]) {
            bit
        } else {
            0
        };
        assert(forall|v: u32| #![auto] (0u32 & !v) == 0 && (v & !v) == 0) by (bit_vector);
        assert(x & !y == 0);
        assert((a | x) & !(b | y) == 0) by (bit_vector)
            requires
                a & !b == 0,
                x & !y == 0,
        ;
    } else {
        assert(0u32 & !0u32 == 0) by (bit_vector);
    }
}

/// A controller operation never clears a bit of the global enable mask:
/// the operation keeps every configuration (see
/// `lemma_calls_keep_configurations`).
pub proof fn lemma_call_keeps_mask_bits(s: Seq<ControllerState>, index: int, call: ControllerCall)
    requires
        s.len() == PWM_CONTROLLERS,
        0 <= index < PWM_CONTROLLERS,
        s[index].channels.len() == CHANNELS_PER_CONTROLLER,
        call_allowed(call),
    ensures
        global_mask(s) & !global_mask(s.update(index, call_result(s[index], call))) == 0,
{
    let s2 = s.update(index, call_result(s[index], call));
    lemma_calls_keep_configurations(s[index], call);
    assert forall|i: int| 0 <= i < PWM_CONTROLLERS && has_configured_channel(s[i]) implies has_configured_channel(s2[i]) by {
        if i == index {
            let j = choose|j: int| 0 <= j < s[i].channels.len() && (#[trigger] s[i].channels[j]).config is Some;
            assert(s2[i].channels[j].config is Some);
        }
    }
    lemma_mask_only_grows(s, s2, PWM_CONTROLLERS as nat);
}

/// The controller states after operations on controllers, in order: each
/// step is a controller index and a call on that controller (a step with
/// no such controller changes nothing).
pub open spec fn system_after(s: Seq<ControllerState>, steps: Seq<(int, ControllerCall)>) -> Seq<
    ControllerState,
>
    decreases steps.len(),
{
    if steps.len() == 0 {
        s
    } else {
        let before = system_after(s, steps.drop_last());
        let (index, call) = steps.last();
        if 0 <= index < before.len() {
            before.update(index, call_result(before[index], call))
        } else {
            before
        }
    }
}

/// After any sequence of controller operations, every controller that had
/// a configured channel still has one, and the shape is kept.
proof fn lemma_steps_keep_configured(s: Seq<ControllerState>, steps: Seq<(int, ControllerCall)>)
    requires
        s.len() == PWM_CONTROLLERS,
        forall|i: int| 0 <= i < PWM_CONTROLLERS ==> (#[trigger] s[i]).channels.len() == CHANNELS_PER_CONTROLLER,
        forall|k: int| 0 <= k < steps.len() ==> call_allowed((#[trigger] steps[k]).1),
    ensures
        ({
            let s2 = system_after(s, steps);
            &&& s2.len() == PWM_CONTROLLERS
            &&& forall|i: int| 0 <= i < PWM_CONTROLLERS ==> (#[trigger] s2[i]).channels.len() == CHANNELS_PER_CONTROLLER
            &&& forall|i: int| 0 <= i < PWM_CONTROLLERS && has_configured_channel(#[trigger] s[i]) ==> has_configured_channel(s2[i])
        }),
    decreases steps.len(),
{
    if steps.len() > 0 {
        let prefix = steps.drop_last();
        assert forall|k: int| 0 <= k < prefix.len() implies call_allowed((#[trigger] prefix[k]).1) by {
            assert(prefix[k] == steps[k]);
        }
        lemma_steps_keep_configured(s, prefix);
        let before = system_after(s, prefix);
        let (index, call) = steps.last();
        assert(call_allowed(steps[steps.len() - 1].1));
        if 0 <= index < before.len() {
            lemma_calls_keep_configurations(before[index], call);
            let s2 = system_after(s, steps);
            assert forall|i: int| 0 <= i < PWM_CONTROLLERS && has_configured_channel(#[trigger] s[i]) implies has_configured_channel(s2[i]) by {
                assert(has_configured_channel(before[i]));
                if i == index {
                    let j = choose|j: int| 0 <= j < before[i].channels.len() && (#[trigger] before[i].channels[j]).config is Some;
                    assert(s2[i].channels[j].config is Some);
                }
            }
        }
    }
}

/// Bits of the global enable mask are never cleared: after any sequence of
/// controller operations (each meeting its precondition), every bit of the
/// mask before is still set.
pub proof fn lemma_steps_keep_mask_bits(s: Seq<ControllerState>, steps: Seq<(int, ControllerCall)>)
    requires
        s.len() == PWM_CONTROLLERS,
        forall|i: int| 0 <= i < PWM_CONTROLLERS ==> (#[trigger] s[i]).channels.len() == CHANNELS_PER_CONTROLLER,
        forall|k: int| 0 <= k < steps.len() ==> call_allowed((#[trigger] steps[k]).1),
    ensures
        global_mask(s) & !global_mask(system_after(s, steps)) == 0,
{
    lemma_steps_keep_configured(s, steps);
    let s2 = system_after(s, steps);
    assert forall|i: int| 0 <= i < PWM_CONTROLLERS && has_configured_channel(s[i]) implies has_configured_channel(s2[i]) by {
        assert(has_configured_channel(s[i]));
    }
    lemma_mask_only_grows(s, s2, PWM_CONTROLLERS as nat);
}

} // verus!
